use twitchchat::error::MessageError;
use twitchchat::irc::{parse, IrcMessage};
use twitchchat::maybe_owned::MaybeOwned;
use twitchchat::messages::{FromIrcMessage, HasTags, NoticeType, SubPlan, UserNotice};
use twitchchat::twitch::{Badge, Color};

#[test]
fn user_notice_message() {
    let input = ":tmi.twitch.tv USERNOTICE #museun :This room is no longer in slow mode.\r\n";

    let mut lines = parse(input);
    let mut seen = 0;
    while let Some(msg) = lines.next() {
        let msg = UserNotice::from_irc(msg.unwrap()).unwrap();
        assert_eq!(msg.channel(), "#museun");
        assert_eq!(
            msg.message().unwrap(),
            "This room is no longer in slow mode."
        );
        seen += 1;
    }
    assert_eq!(seen, 1);
}

#[test]
fn user_notice_stability() {
    let input = ":tmi.twitch.tv USERNOTICE #museun\r\n";
    let mut lines = parse(input);
    let mut seen = 0;
    while let Some(msg) = lines.next() {
        let msg = UserNotice::from_irc(msg.unwrap()).unwrap();
        assert_eq!(msg.message(), None);
        seen += 1;
    }
    assert_eq!(seen, 1);
}

#[test]
fn user_notice_integrity() {
    let input = "@badge-info=;badges=staff/1,broadcaster/1,turbo/1;color=#008000;display-name=ronni;emotes=;id=db25007f-7a18-43eb-9379-80131e44d633;login=ronni;mod=0;msg-id=resub;msg-param-cumulative-months=6;msg-param-streak-months=2;msg-param-should-share-streak=1;msg-param-sub-plan=Prime;msg-param-sub-plan-name=Prime;room-id=1337;subscriber=1;system-msg=ronni\\shas\\ssubscribed\\sfor\\s6\\smonths!;tmi-sent-ts=1507246572675;turbo=1;user-id=1337;user-type=staff :tmi.twitch.tv USERNOTICE #dallas :Great stream -- keep it up!\r\n";

    let mut lines = parse(input);
    let mut seen = 0;
    while let Some(msg) = lines.next() {
        let msg = UserNotice::from_irc(msg.unwrap()).unwrap();

        // the line names the channel `#dallas`; `#ronni` stands nowhere in it
        assert!(msg.channel() != "#ronni");
        assert!(msg.channel() == "#dallas");
        assert!(msg.message().unwrap() == "Great stream -- keep it up!");

        assert!(msg.badge_info().into_vec() == vec![]);
        assert!(
            msg.badges().into_vec() == vec![Badge::Staff, Badge::Broadcaster, Badge::Turbo]
        );
        assert!(msg.color().unwrap().unwrap() == Color::from_str("#008000").unwrap());
        assert!(msg.display_name().unwrap() == "ronni");
        assert!(msg.emotes().into_vec() == vec![]);
        assert!(msg.id().unwrap() == "db25007f-7a18-43eb-9379-80131e44d633");
        assert!(msg.tags().get_parsed::<bool>("mod").unwrap().unwrap() == false);
        assert!(msg.is_moderator() == false);
        assert!(msg.room_id().unwrap().unwrap() == 1337);
        assert!(msg.tags().get_parsed::<bool>("subscriber").unwrap().unwrap() == true);
        assert!(msg.tmi_sent_ts().unwrap().unwrap() == 1507246572675);
        assert!(msg.tags().get_parsed::<bool>("turbo").unwrap().unwrap() == true);
        assert!(msg.user_id().unwrap().unwrap() == 1337);
        assert!(msg.tags().get("user-type").unwrap() == "staff");
        assert!(msg.login().unwrap() == "ronni");
        assert!(msg.msg_id().unwrap().unwrap() == NoticeType::Resub);
        assert!(msg.msg_param_cumulative_months().unwrap().unwrap() == 6);
        assert!(msg.msg_param_streak_months().unwrap().unwrap() == 2);
        assert!(msg.msg_param_should_share_streak().unwrap().unwrap() == true);
        assert!(msg.msg_param_sub_plan().unwrap() == SubPlan::Prime);
        assert!(msg.msg_param_sub_plan_name().unwrap() == "Prime");
        assert!(msg.system_msg().unwrap() == "ronni has subscribed for 6 months!");
        seen += 1;
    }
    assert_eq!(seen, 1);
}

#[test]
fn user_notice_unknown() {
    let input = "@badge-info=subscriber/8;badges=subscriber/6,bits/100;color=#59517B;display-name=lllAirJordanlll;emotes=;flags=;id=3198b02c-eaf4-4904-9b07-eb1b2b12ba50;login=lllairjordanlll;mod=0;msg-id=resub;msg-param-cumulative-months=8;msg-param-months=0;msg-param-should-share-streak=0;msg-param-sub-plan-name=Channel\\sSubscription\\s(giantwaffle);msg-param-sub-plan=1000;room-id=22552479;subscriber=1;system-msg=lllAirJordanlll\\ssubscribed\\sat\\sTier\\s1.\\sThey\'ve\\ssubscribed\\sfor\\s8\\smonths!;tmi-sent-ts=1580932171144;user-id=44979519;user-type= :tmi.twitch.tv USERNOTICE #giantwaffle\r\n";
    let mut lines = parse(input);
    let mut seen = 0;
    while let Some(msg) = lines.next() {
        let msg = UserNotice::from_irc(msg.unwrap()).unwrap();
        assert_eq!(msg.channel(), "#giantwaffle");
        assert_eq!(msg.tags().is_empty(), false);
        assert_eq!(msg.msg_param_sub_plan(), Some(SubPlan::Tier1));
        assert_eq!(
            msg.system_msg().unwrap(),
            "lllAirJordanlll subscribed at Tier 1. They've subscribed for 8 months!"
        );
        assert_eq!(
            msg.msg_param_sub_plan_name(),
            Some("Channel\\sSubscription\\s(giantwaffle)")
        );
        assert_eq!(
            msg.badges().into_vec(),
            vec![Badge::NoTierSubscriber(6), Badge::Bits(100)]
        );
        assert_eq!(msg.msg_param_months(), Some(Ok(0)));
        assert_eq!(msg.msg_param_should_share_streak(), Some(Ok(false)));
        assert!(msg.flags().is_empty());
        seen += 1;
    }
    assert_eq!(seen, 1);
}

fn notice(tags: &str) -> UserNotice<'static> {
    let line = format!("@{} :tmi.twitch.tv USERNOTICE #c", tags);
    UserNotice::from_irc(IrcMessage::parse(MaybeOwned::Owned(line)).unwrap()).unwrap()
}

#[test]
fn notice_types() {
    let known: Vec<(&str, NoticeType)> = vec![
        ("sub", NoticeType::Sub),
        ("resub", NoticeType::Resub),
        ("subgift", NoticeType::SubGift),
        ("anonsubgift", NoticeType::AnonSubGift),
        ("submysterygift", NoticeType::SubMysteryGift),
        ("giftpaidupgrade", NoticeType::GiftPaidUpgrade),
        ("rewardgift", NoticeType::RewardGift),
        ("anongiftpaidupgrade", NoticeType::AnonGiftPaidUpgrade),
        ("raid", NoticeType::Raid),
        ("unraid", NoticeType::Unraid),
        ("ritual", NoticeType::Ritual),
        ("bitsbadgetier", NoticeType::BitsBadgeTier),
        ("Sub", NoticeType::Unknown("Sub".to_string())),
        ("host", NoticeType::Unknown("host".to_string())),
        ("", NoticeType::Unknown(String::new())),
    ];
    for (text, kind) in known {
        assert_eq!(NoticeType::from_str(text), kind);
        assert_eq!(
            notice(&format!("msg-id={}", text)).msg_id(),
            Some(Ok(kind))
        );
    }
    assert_eq!(notice("id=1").msg_id(), None);
}

#[test]
fn sub_plans() {
    let known: Vec<(&str, SubPlan)> = vec![
        ("Prime", SubPlan::Prime),
        ("1000", SubPlan::Tier1),
        ("2000", SubPlan::Tier2),
        ("3000", SubPlan::Tier3),
        ("Tier1", SubPlan::Unknown("Tier1".to_string())),
        ("prime", SubPlan::Unknown("prime".to_string())),
        ("4000", SubPlan::Unknown("4000".to_string())),
    ];
    for (text, plan) in known {
        assert_eq!(SubPlan::from_str(text), plan);
        assert_eq!(
            notice(&format!("msg-param-sub-plan={}", text)).msg_param_sub_plan(),
            Some(plan)
        );
    }
    assert_eq!(notice("id=1").msg_param_sub_plan(), None);
}

#[test]
fn system_msg_escapes() {
    assert_eq!(
        notice("system-msg=a\\sb\\rc\\nd\\:e\\\\f").system_msg(),
        Some("a b\rc\nd:e\\f".to_string())
    );
    // an escaped backslash does not begin another escape
    assert_eq!(
        notice("system-msg=a\\\\sb").system_msg(),
        Some("a\\sb".to_string())
    );
    // a backslash that begins no escape stays
    assert_eq!(
        notice("system-msg=a\\xb\\").system_msg(),
        Some("a\\xb\\".to_string())
    );
    assert_eq!(notice("system-msg=").system_msg(), Some(String::new()));
    assert_eq!(
        notice("system-msg=\u{1F468}\\s\u{FFFD}").system_msg(),
        Some("\u{1F468} \u{FFFD}".to_string())
    );
    assert_eq!(notice("id=1").system_msg(), None);
}

#[test]
fn user_notice_parameters() {
    let msg = notice("msg-param-displayName=A;msg-param-login=b;msg-param-promo-gift-total=3;msg-param-promo-name=P;msg-param-recipient-display-name=R;msg-param-recipient-id=9;msg-param-recipient-user-name=r;msg-param-sender-login=s;msg-param-sender-name=S;msg-param-viewerCount=77;msg-param-ritual-name=new_chatter;msg-param-threshold=1000;mod=1");
    assert_eq!(msg.msg_param_display_name(), Some("A"));
    assert_eq!(msg.msg_param_login(), Some("b"));
    assert_eq!(msg.msg_param_promo_gift_total(), Some(Ok(3)));
    assert_eq!(msg.msg_param_promo_name(), Some("P"));
    assert_eq!(msg.msg_param_recipient_display_name(), Some("R"));
    assert_eq!(msg.msg_param_recipient_id(), Some(Ok(9)));
    assert_eq!(msg.msg_param_recipient_user_name(), Some("r"));
    assert_eq!(msg.msg_param_sender_login(), Some("s"));
    assert_eq!(msg.msg_param_sender_name(), Some("S"));
    assert_eq!(msg.msg_param_viewer_count(), Some(Ok(77)));
    assert_eq!(msg.msg_param_ritual_name(), Some("new_chatter"));
    assert_eq!(msg.msg_param_threshold(), Some(Ok(1000)));
    assert!(msg.is_moderator());
    assert_eq!(msg.msg_param_cumulative_months(), None);
    assert_eq!(msg.msg_param_streak_months(), None);
    assert_eq!(msg.login(), None);
}

#[test]
fn user_notice_errors() {
    let make = |line: &str| {
        UserNotice::from_irc(IrcMessage::parse(MaybeOwned::Owned(line.to_string())).unwrap()).err()
    };
    assert_eq!(
        make(":tmi.twitch.tv PRIVMSG #c :x"),
        Some(MessageError::InvalidCommand)
    );
    assert_eq!(
        make(":tmi.twitch.tv USERNOTICE :x"),
        Some(MessageError::ExpectedArg { pos: 0 })
    );
}

#[test]
fn user_notice_owned_copy_answers_alike() {
    let line = String::from("@badges=staff/1;color=#008000;display-name=ronni;id=i;login=ronni;mod=1;msg-id=raid;room-id=1;system-msg=a\\sb;msg-param-sub-plan=2000;msg-param-viewerCount=5 :tmi.twitch.tv USERNOTICE #dallas :Great stream\r\n");
    let answers = |msg: &UserNotice<'_>| {
        vec![
            msg.raw().to_string(),
            msg.channel().to_string(),
            format!("{:?}", msg.message()),
            format!("{:?}", msg.badge_info()),
            format!("{:?}", msg.badges()),
            format!("{:?}", msg.color()),
            format!("{:?}", msg.display_name()),
            format!("{:?}", msg.emotes()),
            format!("{:?}", msg.flags()),
            format!("{:?}", msg.id()),
            format!("{:?}", msg.login()),
            format!("{:?}", msg.is_moderator()),
            format!("{:?}", msg.msg_id()),
            format!("{:?}", msg.room_id()),
            format!("{:?}", msg.system_msg()),
            format!("{:?}", msg.msg_param_sub_plan()),
            format!("{:?}", msg.msg_param_viewer_count()),
        ]
    };
    let borrowed =
        UserNotice::from_irc(IrcMessage::parse(MaybeOwned::Borrowed(&line)).unwrap()).unwrap();
    let before = answers(&borrowed);
    assert!(!borrowed.clone().into_inner().is_owned());
    let owned = borrowed.into_owned();
    drop(line);
    assert_eq!(answers(&owned), before);
    assert!(owned.clone().into_inner().is_owned());
    assert_eq!(owned.message(), Some("Great stream"));
    assert_eq!(owned.msg_id(), Some(Ok(NoticeType::Raid)));
}
