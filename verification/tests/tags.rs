use twitchchat::error::ParseError;
use twitchchat::irc::tags::unescape;
use twitchchat::irc::IrcMessage;
use twitchchat::maybe_owned::{MaybeOwned, MaybeOwnedIndex};
use twitchchat::messages::{FromIrcMessage, HasTags, UserState};
use twitchchat::parse::FromText;
use twitchchat::twitch::{BadgeVec, Color};

fn state(tags: &str) -> UserState<'static> {
    let line = format!("@{} :tmi.twitch.tv USERSTATE #c\r\n", tags);
    UserState::from_irc(IrcMessage::parse(MaybeOwned::Owned(line)).unwrap()).unwrap()
}

#[test]
fn tags_are_split_into_keys_and_values() {
    let msg = state("a=1;b=;c;d=x=y;=z;\u{1F468}=\u{FFFD}");
    let tags = msg.tags();
    assert_eq!(tags.len(), 6);
    assert!(!tags.is_empty());
    assert_eq!(tags.get("a"), Some("1"));
    assert_eq!(tags.get("b"), Some(""));
    assert_eq!(tags.get("c"), Some(""));
    assert_eq!(tags.get("d"), Some("x=y"));
    assert_eq!(tags.get(""), Some("z"));
    assert_eq!(tags.get("\u{1F468}"), Some("\u{FFFD}"));
    assert_eq!(tags.get("e"), None);
    assert_eq!(tags.get("A"), None);
    assert_eq!(tags.nth(0), Some(("a", "1")));
    assert_eq!(tags.nth(2), Some(("c", "")));
    assert_eq!(tags.nth(5), Some(("\u{1F468}", "\u{FFFD}")));
    assert_eq!(tags.nth(6), None);
    assert_eq!(tags.get_index("a"), Some(MaybeOwnedIndex::raw(3, 4)));
    assert_eq!(tags.get_index("zz"), None);
}

#[test]
fn empty_pieces_are_no_tags() {
    let msg = state(";;a=1;;");
    assert_eq!(msg.tags().len(), 1);
    assert_eq!(msg.tags().get("a"), Some("1"));
    let line = "@ :tmi.twitch.tv USERSTATE #c";
    let msg = UserState::from_irc(IrcMessage::parse(MaybeOwned::Borrowed(line)).unwrap()).unwrap();
    assert!(msg.tags().is_empty());
    assert_eq!(msg.tags().len(), 0);
}

#[test]
fn the_first_of_two_equal_keys_wins() {
    let msg = state("a=1;b=2;a=3;b");
    let tags = msg.tags();
    assert_eq!(tags.len(), 4);
    assert_eq!(tags.get("a"), Some("1"));
    assert_eq!(tags.get("b"), Some("2"));
    assert_eq!(tags.get_parsed::<u64>("a"), Some(Ok(1)));
    assert!(tags.get_as_bool("a"));
    let msg = state("a=0;a=1");
    assert!(!msg.tags().get_as_bool("a"));
}

#[test]
fn a_flag_is_set_where_the_value_is_one() {
    for (tags, key, held) in [
        ("mod=1", "mod", true),
        ("mod=0", "mod", false),
        ("mod=", "mod", false),
        ("mod", "mod", false),
        ("mod=11", "mod", false),
        ("mod=true", "mod", false),
        ("mod=01", "mod", false),
        ("mod=1", "mo", false),
        ("x=1", "mod", false),
    ] {
        let msg = state(tags);
        assert_eq!(msg.tags().get_as_bool(key), held, "{}", tags);
        assert_eq!(
            msg.tags().get_as_bool(key),
            msg.tags().get(key) == Some("1"),
            "{}",
            tags
        );
    }
}

#[test]
fn typed_lookup_is_absent_invalid_or_valid() {
    let msg = state("n=42;e=;x=4x;big=18446744073709551616;p=+7;z=007;t=1;f=0;m=-1;c=#0d4200;k=#0D420");
    assert_eq!(msg.tags().get_parsed::<Color>("e"), Some(Ok(Color::default())));
    let tags = msg.tags();
    assert_eq!(tags.get_parsed::<u64>("none"), None);
    assert_eq!(tags.get_parsed::<u64>("n"), Some(Ok(42)));
    assert_eq!(tags.get_parsed::<u64>("e"), Some(Err(ParseError::Empty)));
    assert_eq!(tags.get_parsed::<u64>("x"), Some(Err(ParseError::InvalidDigit)));
    assert_eq!(tags.get_parsed::<u64>("m"), Some(Err(ParseError::InvalidDigit)));
    assert_eq!(tags.get_parsed::<u64>("big"), Some(Err(ParseError::Overflow)));
    assert_eq!(tags.get_parsed::<u64>("p"), Some(Ok(7)));
    assert_eq!(tags.get_parsed::<u64>("z"), Some(Ok(7)));
    assert_eq!(tags.get_parsed::<u8>("n"), Some(Ok(42)));
    assert_eq!(tags.get_parsed::<u16>("n"), Some(Ok(42)));
    assert_eq!(tags.get_parsed::<u32>("n"), Some(Ok(42)));
    assert_eq!(tags.get_parsed::<usize>("n"), Some(Ok(42)));
    assert_eq!(tags.get_parsed::<bool>("t"), Some(Ok(true)));
    assert_eq!(tags.get_parsed::<bool>("f"), Some(Ok(false)));
    assert_eq!(tags.get_parsed::<bool>("n"), Some(Err(ParseError::InvalidBool)));
    assert_eq!(tags.get_parsed::<bool>("e"), Some(Err(ParseError::InvalidBool)));
    assert_eq!(
        tags.get_parsed::<Color>("c"),
        Some(Ok(Color {
            red: 0x0d,
            green: 0x42,
            blue: 0
        }))
    );
    assert_eq!(
        tags.get_parsed::<Color>("k"),
        Some(Err(ParseError::InvalidColor))
    );
    let list: BadgeVec = tags.get_list("none");
    assert!(list.is_empty());
}

#[test]
fn numbers_of_each_width() {
    assert_eq!(u8::from_text("255"), Ok(255));
    assert_eq!(u8::from_text("256"), Err(ParseError::Overflow));
    assert_eq!(u16::from_text("65535"), Ok(65535));
    assert_eq!(u16::from_text("65536"), Err(ParseError::Overflow));
    assert_eq!(u32::from_text("4294967295"), Ok(4294967295));
    assert_eq!(u32::from_text("4294967296"), Err(ParseError::Overflow));
    assert_eq!(u64::from_text("18446744073709551615"), Ok(u64::MAX));
    assert_eq!(
        u64::from_text("18446744073709551616"),
        Err(ParseError::Overflow)
    );
    assert_eq!(
        u64::from_text("000000000000000000000000000000000000001"),
        Ok(1)
    );
    assert_eq!(
        u64::from_text("99999999999999999999999999x"),
        Err(ParseError::InvalidDigit)
    );
    assert_eq!(u64::from_text("+"), Err(ParseError::InvalidDigit));
    assert_eq!(u64::from_text("++1"), Err(ParseError::InvalidDigit));
    assert_eq!(u64::from_text("-0"), Err(ParseError::InvalidDigit));
    assert_eq!(u64::from_text(" 1"), Err(ParseError::InvalidDigit));
    assert_eq!(u64::from_text("\u{0661}"), Err(ParseError::InvalidDigit));
    assert_eq!(u64::from_text(""), Err(ParseError::Empty));
    assert_eq!(usize::from_text("12"), Ok(12));
    for text in ["0", "7", "+7", "007", "255", "256", "", "x", "1x", "-1", "65536"] {
        assert_eq!(u8::from_text(text).ok(), text.parse::<u8>().ok(), "{}", text);
        assert_eq!(u16::from_text(text).ok(), text.parse::<u16>().ok(), "{}", text);
        assert_eq!(u64::from_text(text).ok(), text.parse::<u64>().ok(), "{}", text);
    }
}

#[test]
fn colors() {
    assert_eq!(
        Color::from_str("#0D4200"),
        Ok(Color {
            red: 13,
            green: 66,
            blue: 0
        })
    );
    assert_eq!(
        Color::from_str("#ffFFff"),
        Ok(Color {
            red: 255,
            green: 255,
            blue: 255
        })
    );
    assert_eq!(Color::from_str("#ffFFff"), Ok(Color::default()));
    assert_eq!(Color::from_str(""), Ok(Color::default()));
    for bad in ["#", "0D4200", "#0D420", "#0D42000", "#0G4200", "#0D42 0", "blue", "#\u{1F468}00"] {
        assert_eq!(Color::from_str(bad), Err(ParseError::InvalidColor), "{}", bad);
    }
}

#[test]
fn escapes() {
    assert_eq!(unescape("a\\sb"), "a b");
    assert_eq!(unescape("\\s\\r\\n\\:\\\\"), " \r\n:\\");
    assert_eq!(unescape("plain"), "plain");
    assert_eq!(unescape(""), "");
    assert_eq!(unescape("\\"), "\\");
    assert_eq!(unescape("\\x"), "\\x");
    assert_eq!(unescape("\\\\s"), "\\s");
    assert_eq!(unescape("\\\\\\s"), "\\ ");
    assert_eq!(unescape("\u{1F468}\\s\u{FFFD}\\"), "\u{1F468} \u{FFFD}\\");
}
