use std::collections::HashSet;
use twitchchat::error::{MessageError, ParseError};
use twitchchat::irc::{parse, IrcMessage};
use twitchchat::maybe_owned::MaybeOwned;
use twitchchat::messages::{FromIrcMessage, GlobalUserState, HasTags};
use twitchchat::twitch::{Badge, BadgeInfo, BadgeVec, Color};

fn numbers(sets: Vec<&str>) -> HashSet<u32> {
    sets.into_iter().map(|s| s.parse().unwrap()).collect()
}

fn set_of(items: &[u32]) -> HashSet<u32> {
    items.iter().copied().collect()
}

#[test]
fn global_user_state_integrity() {
    let input = "@badge-info=subscriber/8;badges=subscriber/6;color=#0D4200;display-name=dallas;emote-sets=0,33,50,237,793,2126,3517,4578,5569,9400,10337,12239;turbo=0;user-id=1337;user-type=admin :tmi.twitch.tv GLOBALUSERSTATE
        \r\n";
    let mut lines = parse(input);
    let mut seen = 0;
    while let Some(msg) = lines.next() {
        let msg = GlobalUserState::from_irc(msg.unwrap()).unwrap();
        let badge_info: BadgeVec = msg.tags().get_list("badge-info");
        assert!(badge_info.into_vec() == vec![BadgeInfo::NoTierSubscriber(8)]);
        assert!(msg.badges().into_vec() == vec![Badge::NoTierSubscriber(6)]);
        let color = Color::from_str("#0D4200").unwrap();
        assert!(msg.color() == color);
        assert!(msg.display_name().unwrap() == "dallas");

        assert!(
            numbers(msg.emote_sets())
                == set_of(&[0, 33, 50, 237, 793, 2126, 3517, 4578, 5569, 9400, 10337, 12239])
        );
        assert!(msg.tags().get_parsed::<bool>("turbo").unwrap() == Ok(false));
        assert!(msg.user_id().unwrap() == "1337");
        assert!(msg.tags().get("user-type").unwrap() == "admin");
        assert!(msg.has_tags());
        seen += 1;
    }
    assert_eq!(seen, 1);
}

#[test]
fn global_user_state_no_tags() {
    let input = ":tmi.twitch.tv GLOBALUSERSTATE\r\n";
    let mut lines = parse(input);
    let mut seen = 0;
    while let Some(msg) = lines.next() {
        let msg = GlobalUserState::from_irc(msg.unwrap()).unwrap();
        assert!(msg.user_id().is_none());
        assert!(msg.display_name().is_none());
        assert_eq!(msg.color(), Color::default());
        assert_eq!(numbers(msg.emote_sets()), set_of(&[0]));
        assert_eq!(msg.emote_sets(), vec!["0"]);
        assert!(!msg.has_tags());
        assert!(msg.badges().is_empty());
        assert_eq!(
            msg.color(),
            Color {
                red: 255,
                green: 255,
                blue: 255
            }
        );
        seen += 1;
    }
    assert_eq!(seen, 1);
}

#[test]
fn global_user_state_empty_color() {
    let input = "@badge-info=;badges=;color=;display-name=shaken_bot;emote-sets=0;user-id=241015868;user-type= :tmi.twitch.tv GLOBALUSERSTATE\r\n";
    let mut lines = parse(input);
    let mut seen = 0;
    while let Some(msg) = lines.next() {
        let msg = GlobalUserState::from_irc(msg.unwrap()).unwrap();
        assert_eq!(msg.user_id().unwrap(), "241015868");
        assert_eq!(msg.display_name().unwrap(), "shaken_bot");
        assert_eq!(msg.color(), Color::default());
        assert_eq!(msg.emote_sets(), vec!["0"]);
        assert!(msg.has_tags());
        seen += 1;
    }
    assert_eq!(seen, 1);
}

#[test]
fn global_user_state_errors() {
    let make = |line: &str| {
        GlobalUserState::from_irc(IrcMessage::parse(MaybeOwned::Owned(line.to_string())).unwrap())
            .err()
    };
    assert_eq!(
        make(":tmi.twitch.tv USERSTATE #c"),
        Some(MessageError::InvalidCommand)
    );
    assert_eq!(make("@color=#ff69b4 :tmi.twitch.tv GLOBALUSERSTATE"), None);
    assert_eq!(make("@color=blue :tmi.twitch.tv GLOBALUSERSTATE"), None);
    assert_eq!(make("@color=#12345 :tmi.twitch.tv GLOBALUSERSTATE"), None);
    assert_eq!(make("@color :tmi.twitch.tv GLOBALUSERSTATE #c :x"), None);
}

#[test]
fn a_color_that_is_none_leaves_the_rest_of_the_message() {
    let line = "@color=#GGGGGG;user-id=1 :tmi.twitch.tv GLOBALUSERSTATE";
    let msg =
        GlobalUserState::from_irc(IrcMessage::parse(MaybeOwned::Borrowed(line)).unwrap()).unwrap();
    assert_eq!(msg.user_id(), Some("1"));
    assert_eq!(msg.display_name(), None);
    assert_eq!(msg.color(), Color::default());
    assert_eq!(msg.parsed_color(), Some(Err(ParseError::InvalidColor)));
    assert!(msg.has_tags());
    assert_eq!(msg.emote_sets(), vec!["0"]);

    let line = "@badges=staff/1;color=blue;display-name=D;emote-sets=1,2 :tmi.twitch.tv GLOBALUSERSTATE";
    let msg =
        GlobalUserState::from_irc(IrcMessage::parse(MaybeOwned::Borrowed(line)).unwrap()).unwrap();
    assert_eq!(msg.color(), Color::default());
    assert_eq!(msg.parsed_color(), Some(Err(ParseError::InvalidColor)));
    assert_eq!(msg.display_name(), Some("D"));
    assert_eq!(msg.badges().into_vec(), vec![Badge::Staff]);
    assert_eq!(msg.emote_sets(), vec!["1", "2"]);

    let line = "@color=#0D4200 :tmi.twitch.tv GLOBALUSERSTATE";
    let msg =
        GlobalUserState::from_irc(IrcMessage::parse(MaybeOwned::Borrowed(line)).unwrap()).unwrap();
    assert_eq!(msg.color(), Color::from_str("#0D4200").unwrap());
    assert_eq!(msg.parsed_color(), Some(Color::from_str("#0D4200")));

    let line = "@color= :tmi.twitch.tv GLOBALUSERSTATE";
    let msg =
        GlobalUserState::from_irc(IrcMessage::parse(MaybeOwned::Borrowed(line)).unwrap()).unwrap();
    assert_eq!(msg.color(), Color::default());
    assert_eq!(msg.parsed_color(), Some(Ok(Color::default())));

    let line = ":tmi.twitch.tv GLOBALUSERSTATE";
    let msg =
        GlobalUserState::from_irc(IrcMessage::parse(MaybeOwned::Borrowed(line)).unwrap()).unwrap();
    assert_eq!(msg.parsed_color(), None);
}

#[test]
fn global_user_state_color_and_sets() {
    let line = "@color=#ff69B4;emote-sets=0,,7 :tmi.twitch.tv GLOBALUSERSTATE";
    let msg =
        GlobalUserState::from_irc(IrcMessage::parse(MaybeOwned::Borrowed(line)).unwrap()).unwrap();
    assert_eq!(
        msg.color(),
        Color {
            red: 0xff,
            green: 0x69,
            blue: 0xb4
        }
    );
    assert_eq!(msg.emote_sets(), vec!["0", "", "7"]);
    let line = "@emote-sets= :tmi.twitch.tv GLOBALUSERSTATE";
    let msg =
        GlobalUserState::from_irc(IrcMessage::parse(MaybeOwned::Borrowed(line)).unwrap()).unwrap();
    assert_eq!(msg.emote_sets(), vec![""]);
}

#[test]
fn global_user_state_owned_copy_answers_alike() {
    let line = String::from("@badges=staff/1;color=#0D4200;display-name=dallas;emote-sets=0,33;user-id=1337 :tmi.twitch.tv GLOBALUSERSTATE\r\n");
    let answers = |msg: &GlobalUserState<'_>| {
        vec![
            msg.raw().to_string(),
            format!("{:?}", msg.has_tags()),
            format!("{:?}", msg.emote_sets()),
            format!("{:?}", msg.badges()),
            format!("{:?}", msg.user_id()),
            format!("{:?}", msg.display_name()),
            format!("{:?}", msg.color()),
        ]
    };
    let borrowed =
        GlobalUserState::from_irc(IrcMessage::parse(MaybeOwned::Borrowed(&line)).unwrap())
            .unwrap();
    let before = answers(&borrowed);
    assert!(!borrowed.clone().into_inner().is_owned());
    let owned = borrowed.into_owned();
    drop(line);
    assert_eq!(answers(&owned), before);
    assert!(owned.clone().into_inner().is_owned());
    assert_eq!(owned.user_id(), Some("1337"));
    assert_eq!(owned.emote_sets(), vec!["0", "33"]);
}
