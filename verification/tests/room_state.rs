use std::time::Duration;
use twitchchat::error::{MessageError, ParseError};
use twitchchat::irc::{parse, IrcMessage};
use twitchchat::maybe_owned::MaybeOwned;
use twitchchat::messages::{FollowersOnly, FromIrcMessage, HasTags, RoomState};

/// Tests whether ROOMSTATE messages are parsed into RoomState structs correctly.
#[test]
fn room_state_stability() {
    let input = ":tmi.twitch.tv ROOMSTATE #museun\r\n";
    let mut lines = parse(input);
    let mut seen = 0;
    while let Some(msg) = lines.next() {
        let msg = RoomState::from_irc(msg.unwrap()).unwrap();
        assert_eq!(msg.channel(), "#museun");
        seen += 1;
    }
    assert_eq!(seen, 1);
}

/// Tests whether the parts of a full ROOMSTATE message can be accessed as expected.
#[test]
fn room_state_integrity() {
    let input = "@emote-only=0;followers-only=0;r9k=0;slow=0;subs-only=0 :tmi.twitch.tv ROOMSTATE #dallas\r\n";
    let msg = RoomState::from_irc(parse(input).next().unwrap().unwrap()).unwrap();
    assert!(msg.emote_only().unwrap() == Ok(false));
    assert!(msg.followers_only().unwrap() == Ok(FollowersOnly::All));
    // the line says `r9k=0`, and only `1` stands for true
    assert!(msg.r9k().unwrap() == Ok(false));
    assert!(msg.slow().unwrap() == Ok(0));
    assert!(msg.subs_only().unwrap() == Ok(false));
    assert!(msg.channel() == "#dallas");
    assert!(!msg.is_emote_only());
    assert!(!msg.is_r9k());
    assert!(!msg.is_subs_only());
    assert!(msg.is_slow_mode() == None);
    assert!(msg.room_id() == None);
}

#[test]
fn test_followers_only_parsing() {
    let expected: &[(&str, FollowersOnly)] = &[
        ("-1", FollowersOnly::Disabled),
        ("0", FollowersOnly::All),
        ("4", FollowersOnly::Limit(Duration::from_secs(4 * 86400))),
        (
            "31415",
            FollowersOnly::Limit(Duration::from_secs(31415 * 86400)),
        ),
    ];

    expected
        .iter()
        .for_each(|(s, mode)| assert_eq!(FollowersOnly::from_str(s), Ok(*mode)));
}

#[test]
fn test_followers_only_invalid_parsing() {
    let invalid: &[&str] = &["-2", "!", "invalid", ""];
    invalid.iter().for_each(|s| {
        println!("{}", s);
        assert!(FollowersOnly::from_str(s).is_err())
    });
}

#[test]
fn followers_only_limit_in_seconds() {
    assert_eq!(
        FollowersOnly::from_str("4"),
        Ok(FollowersOnly::Limit(Duration::from_secs(345600)))
    );
    assert_ne!(
        FollowersOnly::from_str("4"),
        Ok(FollowersOnly::Limit(Duration::from_secs(4)))
    );
    assert_eq!(
        FollowersOnly::from_str("1"),
        Ok(FollowersOnly::Limit(Duration::from_secs(86400)))
    );
    assert_eq!(
        FollowersOnly::from_str("+7"),
        Ok(FollowersOnly::Limit(Duration::from_secs(604800)))
    );
    assert_eq!(
        FollowersOnly::from_str("007"),
        Ok(FollowersOnly::Limit(Duration::from_secs(604800)))
    );
}

#[test]
fn followers_only_errors() {
    assert_eq!(FollowersOnly::from_str(""), Err(ParseError::Empty));
    assert_eq!(FollowersOnly::from_str("abc"), Err(ParseError::InvalidDigit));
    assert_eq!(FollowersOnly::from_str("-2"), Err(ParseError::InvalidDigit));
    assert_eq!(FollowersOnly::from_str("-1 "), Err(ParseError::InvalidDigit));
    assert_eq!(FollowersOnly::from_str("00"), Err(ParseError::NotPositive));
    assert_eq!(FollowersOnly::from_str("+0"), Err(ParseError::NotPositive));
    assert_eq!(
        FollowersOnly::from_str("18446744073709551616"),
        Err(ParseError::Overflow)
    );
    // the largest number of days whose seconds fit 64 bits, and the one after it
    assert_eq!(
        FollowersOnly::from_str("213503982334601"),
        Ok(FollowersOnly::Limit(Duration::from_secs(
            213503982334601 * 86400
        )))
    );
    assert_eq!(
        FollowersOnly::from_str("213503982334602"),
        Err(ParseError::Overflow)
    );
}

#[test]
fn followers_only_optional() {
    assert_eq!(FollowersOnly::Disabled.optional(), None);
    assert_eq!(FollowersOnly::All.optional(), Some(Duration::new(0, 0)));
    assert_eq!(
        FollowersOnly::Limit(Duration::from_secs(60)).optional(),
        Some(Duration::from_secs(60))
    );
}

#[test]
fn room_state_modes() {
    let input = "@emote-only=1;followers-only=10;r9k=1;room-id=42;slow=30;subs-only=1 :tmi.twitch.tv ROOMSTATE #dallas";
    let msg = RoomState::from_irc(IrcMessage::parse(MaybeOwned::Borrowed(input)).unwrap()).unwrap();
    assert!(msg.is_emote_only());
    assert!(msg.is_r9k());
    assert!(msg.is_subs_only());
    assert_eq!(msg.is_slow_mode(), Some(30));
    assert_eq!(msg.room_id(), Some(Ok(42)));
    assert_eq!(
        msg.followers_only(),
        Some(Ok(FollowersOnly::Limit(Duration::from_secs(864000))))
    );
    assert_eq!(msg.tags().len(), 6);
}

#[test]
fn room_state_slow_mode_needs_a_positive_number() {
    let make = |line: &str| {
        RoomState::from_irc(IrcMessage::parse(MaybeOwned::Owned(line.to_string())).unwrap())
            .unwrap()
            .is_slow_mode()
    };
    assert_eq!(make("@slow=0 :tmi.twitch.tv ROOMSTATE #c"), None);
    assert_eq!(make("@slow=x :tmi.twitch.tv ROOMSTATE #c"), None);
    assert_eq!(make("@slow= :tmi.twitch.tv ROOMSTATE #c"), None);
    assert_eq!(make("@r9k=1 :tmi.twitch.tv ROOMSTATE #c"), None);
    assert_eq!(make("@slow=1 :tmi.twitch.tv ROOMSTATE #c"), Some(1));
}

#[test]
fn room_state_errors() {
    let make = |line: &str| {
        RoomState::from_irc(IrcMessage::parse(MaybeOwned::Owned(line.to_string())).unwrap()).err()
    };
    assert_eq!(
        make(":tmi.twitch.tv USERSTATE #c"),
        Some(MessageError::InvalidCommand)
    );
    assert_eq!(
        make(":tmi.twitch.tv ROOMSTATE"),
        Some(MessageError::ExpectedArg { pos: 0 })
    );
    assert_eq!(
        make(":tmi.twitch.tv ROOMSTATE :#c"),
        Some(MessageError::ExpectedArg { pos: 0 })
    );
}

#[test]
fn room_state_owned_copy_answers_alike() {
    let line = String::from("@emote-only=1;followers-only=10;r9k=0;room-id=42;slow=30;subs-only=1 :tmi.twitch.tv ROOMSTATE #dallas\r\n");
    let answers = |msg: &RoomState<'_>| {
        vec![
            msg.raw().to_string(),
            msg.channel().to_string(),
            format!("{:?}", msg.is_emote_only()),
            format!("{:?}", msg.is_r9k()),
            format!("{:?}", msg.room_id()),
            format!("{:?}", msg.is_slow_mode()),
            format!("{:?}", msg.is_subs_only()),
            format!("{:?}", msg.followers_only()),
        ]
    };
    let borrowed =
        RoomState::from_irc(IrcMessage::parse(MaybeOwned::Borrowed(&line)).unwrap()).unwrap();
    let before = answers(&borrowed);
    assert!(!borrowed.clone().into_inner().is_owned());
    let owned = borrowed.into_owned();
    drop(line);
    assert_eq!(answers(&owned), before);
    assert!(owned.clone().into_inner().is_owned());
    assert_eq!(owned.channel(), "#dallas");
}
