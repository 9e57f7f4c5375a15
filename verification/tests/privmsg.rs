use twitchchat::error::MessageError;
use twitchchat::irc::{parse, IrcMessage};
use twitchchat::maybe_owned::MaybeOwned;
use twitchchat::messages::{Ctcp, FromIrcMessage, HasTags, Privmsg};
use twitchchat::twitch::{Badge, Color, Emote};

fn emote(id: usize, ranges: Vec<std::ops::Range<u16>>) -> Emote {
    Emote {
        id,
        ranges: ranges
            .into_iter()
            .map(|r| r.into())
            .collect(),
    }
}

#[test]
fn privmsg_stability() {
    let input = ":test!user@host PRIVMSG #museun :this is a test\r\n";
    let mut lines = parse(input);
    let mut seen = 0;
    while let Some(msg) = lines.next() {
        let _msg = Privmsg::from_irc(msg.unwrap()).unwrap();
        seen += 1;
    }
    assert_eq!(seen, 1);
}

#[test]
fn privmsg_integrity() {
    let input = "@badge-info=;badges=global_mod/1,turbo/1;color=#0D4200;display-name=ronni;emotes=25:0-4,12-16/1902:6-10;id=b34ccfc7-4977-403a-8a94-33c6bac34fb8;mod=0;room-id=1337;subscriber=0;tmi-sent-ts=1507246572675;turbo=1;user-id=1337;user-type=global_mod :ronni!ronni@ronni.tmi.twitch.tv PRIVMSG #ronni :Kappa Keepo Kappa";
    let msg = IrcMessage::parse(MaybeOwned::Borrowed(input)).unwrap();
    let msg = Privmsg::from_irc(msg).unwrap();

    assert!(msg.name() == "ronni");
    assert!(msg.channel() == "#ronni");
    assert!(msg.data() == "Kappa Keepo Kappa");
    assert!(msg.ctcp() == None);

    assert!(msg.badge_info().into_vec() == vec![]);
    assert!(msg.badges().into_vec() == vec![Badge::GlobalMod, Badge::Turbo]);
    assert!(msg.color().unwrap() == Color::from_str("#0D4200"));
    assert!(msg.display_name().unwrap() == "ronni");
    assert!(
        msg.emotes().into_vec()
            == vec![emote(25, vec![(0..4), (12..16)]), emote(1902, vec![(6..10)])]
    );
    assert!(msg.tags().get("id").unwrap() == "b34ccfc7-4977-403a-8a94-33c6bac34fb8");
    // the line says `mod=0`, and only `1` stands for true
    assert!(msg.tags().get_parsed::<bool>("mod").unwrap() == Ok(false));
    assert!(!msg.is_moderator());
    assert!(msg.room_id().unwrap() == Ok(1337));
    assert!(msg.tags().get_parsed::<bool>("subscriber").unwrap() == Ok(false));
    assert!(msg.tmi_sent_ts().unwrap() == Ok(1507246572675));
    assert!(msg.tags().get_parsed::<bool>("turbo").unwrap() == Ok(true));
    assert!(msg.user_id().unwrap() == Ok(1337));
    assert!(msg.tags().get("user-type").unwrap() == "global_mod");
    assert!(msg.is_global_moderator());
    assert!(msg.is_turbo());
    assert!(!msg.is_broadcaster());
}

#[test]
fn privmsg_boundary() {
    let input = ":test!user@host PRIVMSG #museun :\u{FFFD}\u{1F468}\r\n";
    let mut lines = parse(input);
    let mut seen = 0;
    while let Some(msg) = lines.next() {
        let msg = Privmsg::from_irc(msg.unwrap()).unwrap();

        assert_eq!(msg.name(), "test");
        assert_eq!(msg.channel(), "#museun");
        assert_eq!(msg.data(), "\u{FFFD}\u{1F468}");
        assert_eq!(msg.ctcp(), None);
        seen += 1;
    }
    assert_eq!(seen, 1);
}

#[test]
fn privmsg_action() {
    let input = ":test!user@host PRIVMSG #museun :\x01ACTION this is a test\x01\r\n";
    let mut lines = parse(input);
    let mut seen = 0;
    while let Some(msg) = lines.next() {
        let msg = Privmsg::from_irc(msg.unwrap()).unwrap();

        assert_eq!(msg.name(), "test");
        assert_eq!(msg.channel(), "#museun");
        assert_eq!(msg.data(), "this is a test");
        assert_eq!(msg.ctcp().unwrap(), Ctcp::Action);
        assert!(msg.is_action());
        seen += 1;
    }
    assert_eq!(seen, 1);
}

#[test]
fn privmsg_unknown() {
    let input = ":test!user@host PRIVMSG #museun :\x01FOOBAR this is a test\x01\r\n";
    let mut lines = parse(input);
    let mut seen = 0;
    while let Some(msg) = lines.next() {
        let msg = Privmsg::from_irc(msg.unwrap()).unwrap();

        assert_eq!(msg.name(), "test");
        assert_eq!(msg.channel(), "#museun");
        assert_eq!(msg.data(), "this is a test");
        assert_eq!(msg.ctcp().unwrap(), Ctcp::Unknown { command: "FOOBAR" });
        assert!(!msg.is_action());
        seen += 1;
    }
    assert_eq!(seen, 1);
}

#[test]
fn privmsg_community_rewards() {
    let input = "@custom-reward-id=abc-123-foo;msg-id=highlighted-message :test!user@host PRIVMSG #museun :Notice me!\r\n";
    let mut lines = parse(input);
    let mut seen = 0;
    while let Some(msg) = lines.next() {
        let msg = Privmsg::from_irc(msg.unwrap()).unwrap();
        assert_eq!(msg.name(), "test");
        assert_eq!(msg.channel(), "#museun");
        assert_eq!(msg.data(), "Notice me!");
        assert_eq!(msg.custom_reward_id().unwrap(), "abc-123-foo");
        assert_eq!(msg.msg_id().unwrap(), "highlighted-message");
        seen += 1;
    }
    assert_eq!(seen, 1);
}

fn privmsg_with_data(data: &str) -> Result<Privmsg<'static>, MessageError> {
    let line = format!(":test!user@host PRIVMSG #museun :{}\r\n", data);
    let msg = IrcMessage::parse(MaybeOwned::Owned(line)).unwrap();
    Privmsg::from_irc(msg)
}

#[test]
fn ctcp_action_with_text() {
    let msg = privmsg_with_data("\x01ACTION hello\x01").unwrap();
    assert_eq!(msg.data(), "hello");
    assert_eq!(msg.ctcp(), Some(Ctcp::Action));
}

#[test]
fn ctcp_unknown_command() {
    let msg = privmsg_with_data("\x01FOO hi\x01").unwrap();
    assert_eq!(msg.data(), "hi");
    assert_eq!(msg.ctcp(), Some(Ctcp::Unknown { command: "FOO" }));
}

#[test]
fn ctcp_without_space_is_an_error() {
    assert_eq!(
        privmsg_with_data("\x01FOOBAR\x01").err(),
        Some(MessageError::ExpectedData)
    );
    assert_eq!(
        privmsg_with_data("\x01\x01").err(),
        Some(MessageError::ExpectedData)
    );
}

#[test]
fn ctcp_keeps_inner_white_space() {
    let msg = privmsg_with_data("\x01ACTION  two  spaces \x01").unwrap();
    assert_eq!(msg.data(), " two  spaces ");
    assert_eq!(msg.ctcp(), Some(Ctcp::Action));
    let msg = privmsg_with_data("\x01ACTION \x01").unwrap();
    assert_eq!(msg.data(), "");
}

#[test]
fn ctcp_needs_both_markers() {
    let msg = privmsg_with_data("\x01ACTION hello").unwrap();
    assert_eq!(msg.data(), "\x01ACTION hello");
    assert_eq!(msg.ctcp(), None);
    let msg = privmsg_with_data("ACTION hello\x01").unwrap();
    assert_eq!(msg.data(), "ACTION hello\x01");
    assert_eq!(msg.ctcp(), None);
    let msg = privmsg_with_data("\x01").unwrap();
    assert_eq!(msg.data(), "\x01");
    assert_eq!(msg.ctcp(), None);
}

#[test]
fn privmsg_errors_in_order() {
    let parse_line = |line: &str| {
        Privmsg::from_irc(IrcMessage::parse(MaybeOwned::Owned(line.to_string())).unwrap()).err()
    };
    assert_eq!(
        parse_line(":test!user@host WHISPER #museun :hello"),
        Some(MessageError::InvalidCommand)
    );
    assert_eq!(
        parse_line(":test!user@host PRIVMSG #museun"),
        Some(MessageError::ExpectedData)
    );
    assert_eq!(
        parse_line(":tmi.twitch.tv PRIVMSG #museun :hello"),
        Some(MessageError::ExpectedNick)
    );
    assert_eq!(
        parse_line("PRIVMSG #museun :hello"),
        Some(MessageError::ExpectedNick)
    );
    assert_eq!(
        parse_line(":test!user@host PRIVMSG :hello"),
        Some(MessageError::ExpectedArg { pos: 0 })
    );
    assert_eq!(
        parse_line(":tmi.twitch.tv PRIVMSG :\x01FOOBAR\x01"),
        Some(MessageError::ExpectedData)
    );
}

#[test]
fn privmsg_badge_predicates() {
    let line = "@badges=broadcaster/1,moderator/1,vip/1,subscriber/3012,staff/1 :a!a@a PRIVMSG #c :x";
    let msg = Privmsg::from_irc(IrcMessage::parse(MaybeOwned::Borrowed(line)).unwrap()).unwrap();
    assert!(msg.is_broadcaster());
    assert!(msg.is_moderator());
    assert!(msg.is_vip());
    assert!(msg.is_subscriber());
    assert!(msg.is_staff());
    assert!(!msg.is_turbo());
    assert!(!msg.is_global_moderator());
    let line = "@badges=subscriber/6 :a!a@a PRIVMSG #c :x";
    let msg = Privmsg::from_irc(IrcMessage::parse(MaybeOwned::Borrowed(line)).unwrap()).unwrap();
    assert!(msg.is_subscriber());
    assert!(!msg.is_staff());
    let line = ":a!a@a PRIVMSG #c :x";
    let msg = Privmsg::from_irc(IrcMessage::parse(MaybeOwned::Borrowed(line)).unwrap()).unwrap();
    assert!(!msg.is_subscriber());
    assert_eq!(msg.bits(), None);
}

#[test]
fn privmsg_emotes_locate_the_text() {
    let line = "@emotes=25:0-5,14-19;bits=100;flags=0-4:P.3 :a!a@a PRIVMSG #c :Kappa testing Kappa";
    let msg = Privmsg::from_irc(IrcMessage::parse(MaybeOwned::Borrowed(line)).unwrap()).unwrap();
    assert_eq!(msg.data(), "Kappa testing Kappa");
    let emotes = msg.emotes().into_vec();
    assert_eq!(emotes, vec![emote(25, vec![(0..5), (14..19)])]);
    assert_eq!(msg.bits(), Some(Ok(100)));
    assert_eq!(msg.flags().len(), 1);
}

#[test]
fn privmsg_owned_copy_answers_alike() {
    let line = String::from("@badge-info=subscriber/8;badges=subscriber/6,turbo/1;bits=5;color=#0D4200;display-name=Ronni;emotes=25:0-4;flags=0-4:P.3;room-id=1;tmi-sent-ts=2;user-id=3;custom-reward-id=r;msg-id=m :ronni!ronni@host PRIVMSG #ronni :\x01ACTION Kappa\x01\r\n");
    let owned = {
        let borrowed =
            Privmsg::from_irc(IrcMessage::parse(MaybeOwned::Borrowed(&line)).unwrap()).unwrap();
        let copy = borrowed_answers(&borrowed);
        let owned = Privmsg::from_irc(IrcMessage::parse(MaybeOwned::Borrowed(&line)).unwrap())
            .unwrap()
            .into_owned();
        assert_eq!(borrowed_answers(&owned), copy);
        owned
    };
    drop(line);
    assert!(owned.clone().into_inner().is_owned());
    assert_eq!(owned.data(), "Kappa");
    assert_eq!(owned.name(), "ronni");
    assert_eq!(owned.ctcp(), Some(Ctcp::Action));
}

fn borrowed_answers(msg: &Privmsg<'_>) -> Vec<String> {
    vec![
        msg.raw().to_string(),
        msg.name().to_string(),
        msg.channel().to_string(),
        msg.data().to_string(),
        format!("{:?}", msg.ctcp()),
        format!("{:?}", msg.is_action()),
        format!("{:?}", msg.badge_info()),
        format!("{:?}", msg.badges()),
        format!("{:?}", msg.bits()),
        format!("{:?}", msg.color()),
        format!("{:?}", msg.display_name()),
        format!("{:?}", msg.emotes()),
        format!("{:?}", msg.flags()),
        format!("{:?}", msg.is_broadcaster()),
        format!("{:?}", msg.is_moderator()),
        format!("{:?}", msg.is_vip()),
        format!("{:?}", msg.is_subscriber()),
        format!("{:?}", msg.is_staff()),
        format!("{:?}", msg.is_turbo()),
        format!("{:?}", msg.is_global_moderator()),
        format!("{:?}", msg.room_id()),
        format!("{:?}", msg.tmi_sent_ts()),
        format!("{:?}", msg.user_id()),
        format!("{:?}", msg.custom_reward_id()),
        format!("{:?}", msg.msg_id()),
    ]
}
