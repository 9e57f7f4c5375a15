use twitchchat::error::MessageError;
use twitchchat::irc::{parse, IrcMessage};
use twitchchat::maybe_owned::MaybeOwned;
use twitchchat::messages::{FromIrcMessage, HasTags, UserState, Whisper};
use twitchchat::twitch::{Badge, Color};

#[test]
fn user_state() {
    let input = ":tmi.twitch.tv USERSTATE #museun\r\n";
    let mut lines = parse(input);
    let mut seen = 0;
    while let Some(msg) = lines.next() {
        let msg = UserState::from_irc(msg.unwrap()).unwrap();
        assert_eq!(msg.channel(), "#museun");
        seen += 1;
    }
    assert_eq!(seen, 1);
}

#[test]
fn user_state_tags() {
    let input = "@badges=bits/1000;badge-info=moderator;color=#FF0000;display-name=Museun;emotes=25:0-4;flags=0-3:A.1;mod=1 :tmi.twitch.tv USERSTATE #museun\r\n";
    let msg = UserState::from_irc(parse(input).next().unwrap().unwrap()).unwrap();
    assert_eq!(msg.badges().into_vec(), vec![Badge::Bits(1000)]);
    assert!(msg.badge_info().is_empty());
    assert_eq!(
        msg.color(),
        Some(Ok(Color {
            red: 255,
            green: 0,
            blue: 0
        }))
    );
    assert_eq!(msg.display_name(), Some("Museun"));
    assert_eq!(msg.emotes().len(), 1);
    assert_eq!(msg.flags().len(), 1);
    assert!(msg.is_moderator());
    assert_eq!(msg.tags().len(), 7);
}

#[test]
fn user_state_errors() {
    let make = |line: &str| {
        UserState::from_irc(IrcMessage::parse(MaybeOwned::Owned(line.to_string())).unwrap()).err()
    };
    assert_eq!(
        make(":tmi.twitch.tv ROOMSTATE #c"),
        Some(MessageError::InvalidCommand)
    );
    assert_eq!(
        make(":tmi.twitch.tv USERSTATE"),
        Some(MessageError::ExpectedArg { pos: 0 })
    );
}

#[test]
fn whisper() {
    let input = ":test!user@host WHISPER museun :this is a test\r\n";
    let mut lines = parse(input);
    let mut seen = 0;
    while let Some(msg) = lines.next() {
        let msg = Whisper::from_irc(msg.unwrap()).unwrap();

        assert_eq!(msg.name(), "test");
        assert_eq!(msg.data(), "this is a test");
        seen += 1;
    }
    assert_eq!(seen, 1);
}

#[test]
fn whisper_tags() {
    let input = "@badges=staff/1,turbo/1,global_mod/1;color=#8A2BE2;display-name=Test;emotes=;tmi-sent-ts=5;user-id=6 :test!user@host WHISPER museun :hello";
    let msg = Whisper::from_irc(IrcMessage::parse(MaybeOwned::Borrowed(input)).unwrap()).unwrap();
    assert!(msg.is_staff());
    assert!(msg.is_turbo());
    assert!(msg.is_global_moderator());
    assert_eq!(
        msg.color(),
        Some(Ok(Color {
            red: 0x8a,
            green: 0x2b,
            blue: 0xe2
        }))
    );
    assert_eq!(msg.display_name(), Some("Test"));
    assert!(msg.emotes().is_empty());
    assert!(msg.flags().is_empty());
    assert!(msg.badge_info().is_empty());
    assert_eq!(msg.badges().len(), 3);
    assert_eq!(msg.tmi_sent_ts(), Some(Ok(5)));
    assert_eq!(msg.user_id(), Some(Ok(6)));
    let plain = ":test!user@host WHISPER museun :hello";
    let msg = Whisper::from_irc(IrcMessage::parse(MaybeOwned::Borrowed(plain)).unwrap()).unwrap();
    assert!(!msg.is_staff());
    assert!(!msg.is_turbo());
    assert!(!msg.is_global_moderator());
}

#[test]
fn whisper_errors() {
    let make = |line: &str| {
        Whisper::from_irc(IrcMessage::parse(MaybeOwned::Owned(line.to_string())).unwrap()).err()
    };
    assert_eq!(
        make(":test!user@host PRIVMSG museun :x"),
        Some(MessageError::InvalidCommand)
    );
    assert_eq!(
        make(":tmi.twitch.tv WHISPER museun :x"),
        Some(MessageError::ExpectedNick)
    );
    assert_eq!(
        make(":test!user@host WHISPER museun"),
        Some(MessageError::ExpectedData)
    );
    assert_eq!(
        make(":tmi.twitch.tv WHISPER museun"),
        Some(MessageError::ExpectedNick)
    );
}

#[test]
fn whisper_and_user_state_owned_copies_answer_alike() {
    let line = String::from("@badges=staff/1;color=#8A2BE2;display-name=Test;tmi-sent-ts=5;user-id=6 :test!user@host WHISPER museun :hello\r\n");
    let answers = |msg: &Whisper<'_>| {
        vec![
            msg.raw().to_string(),
            msg.name().to_string(),
            msg.data().to_string(),
            format!("{:?}", msg.color()),
            format!("{:?}", msg.display_name()),
            format!("{:?}", msg.badge_info()),
            format!("{:?}", msg.badges()),
            format!("{:?}", msg.emotes()),
            format!("{:?}", msg.flags()),
            format!("{:?}", msg.is_staff()),
            format!("{:?}", msg.is_turbo()),
            format!("{:?}", msg.is_global_moderator()),
            format!("{:?}", msg.tmi_sent_ts()),
            format!("{:?}", msg.user_id()),
        ]
    };
    let borrowed =
        Whisper::from_irc(IrcMessage::parse(MaybeOwned::Borrowed(&line)).unwrap()).unwrap();
    let before = answers(&borrowed);
    assert!(!borrowed.clone().into_inner().is_owned());
    let owned = borrowed.into_owned();
    drop(line);
    assert_eq!(answers(&owned), before);
    assert!(owned.clone().into_inner().is_owned());
    assert_eq!(owned.data(), "hello");

    let line = String::from("@badges=bits/1;color=#FF0000;display-name=M;mod=1 :tmi.twitch.tv USERSTATE #museun\r\n");
    let answers = |msg: &UserState<'_>| {
        vec![
            msg.raw().to_string(),
            msg.channel().to_string(),
            format!("{:?}", msg.badge_info()),
            format!("{:?}", msg.badges()),
            format!("{:?}", msg.color()),
            format!("{:?}", msg.display_name()),
            format!("{:?}", msg.emotes()),
            format!("{:?}", msg.flags()),
            format!("{:?}", msg.is_moderator()),
        ]
    };
    let borrowed =
        UserState::from_irc(IrcMessage::parse(MaybeOwned::Borrowed(&line)).unwrap()).unwrap();
    let before = answers(&borrowed);
    assert!(!borrowed.clone().into_inner().is_owned());
    let owned = borrowed.into_owned();
    drop(line);
    assert_eq!(answers(&owned), before);
    assert!(owned.clone().into_inner().is_owned());
    assert_eq!(owned.channel(), "#museun");
}
