use serde_json::Value;
use twitchchat::irc::{parse, IrcMessage, Tags};
use twitchchat::maybe_owned::MaybeOwned;
use twitchchat::messages::{
    FromIrcMessage, GlobalUserState, HasTags, Privmsg, RoomState, UserNotice, UserState, Whisper,
};

fn text(value: &str) -> Value {
    Value::String(value.to_string())
}

fn optional_text(value: Option<&str>) -> Value {
    match value {
        Some(value) => text(value),
        None => Value::Null,
    }
}

fn tags_value(tags: &Tags<'_>) -> Value {
    let mut map = serde_json::Map::new();
    let mut i = 0;
    while let Some((key, value)) = tags.nth(i) {
        if !map.contains_key(key) {
            map.insert(key.to_string(), text(value));
        }
        i += 1;
    }
    Value::Object(map)
}

fn object(fields: Vec<(&str, Value)>) -> Value {
    let mut map = serde_json::Map::new();
    for (name, value) in fields {
        map.insert(name.to_string(), value);
    }
    Value::Object(map)
}

fn first_line(input: &str) -> IrcMessage<'_> {
    parse(input).next().unwrap().unwrap()
}

fn raw_of(value: &Value) -> String {
    value.get("raw").unwrap().as_str().unwrap().to_string()
}

fn round_trip_json(value: &Value) -> Value {
    let json = serde_json::to_string(value).unwrap();
    let back: Value = serde_json::from_str(&json).unwrap();
    assert_eq!(&back, value);
    back
}

fn round_trip_rmp(value: &Value) -> Value {
    let bytes = rmp_serde::to_vec(value).unwrap();
    let back: Value = rmp_serde::from_slice(&bytes).unwrap();
    assert_eq!(&back, value);
    back
}

fn privmsg_fields(msg: &Privmsg<'_>) -> Value {
    object(vec![
        ("raw", text(msg.raw())),
        ("tags", tags_value(&msg.tags())),
        ("name", text(msg.name())),
        ("channel", text(msg.channel())),
        ("data", text(msg.data())),
    ])
}

fn whisper_fields(msg: &Whisper<'_>) -> Value {
    object(vec![
        ("raw", text(msg.raw())),
        ("tags", tags_value(&msg.tags())),
        ("name", text(msg.name())),
        ("data", text(msg.data())),
    ])
}

fn room_state_fields(msg: &RoomState<'_>) -> Value {
    object(vec![
        ("raw", text(msg.raw())),
        ("tags", tags_value(&msg.tags())),
        ("channel", text(msg.channel())),
    ])
}

fn user_state_fields(msg: &UserState<'_>) -> Value {
    object(vec![
        ("raw", text(msg.raw())),
        ("tags", tags_value(&msg.tags())),
        ("channel", text(msg.channel())),
    ])
}

fn user_notice_fields(msg: &UserNotice<'_>) -> Value {
    object(vec![
        ("raw", text(msg.raw())),
        ("tags", tags_value(&msg.tags())),
        ("channel", text(msg.channel())),
        ("message", optional_text(msg.message())),
    ])
}

fn global_user_state_fields(msg: &GlobalUserState<'_>) -> Value {
    let color = msg.color();
    let badges: Vec<Value> = msg
        .badges()
        .into_vec()
        .into_iter()
        .map(|badge| text(&format!("{:?}", badge)))
        .collect();
    let emote_sets: Vec<Value> = msg.emote_sets().into_iter().map(text).collect();
    object(vec![
        ("raw", text(msg.raw())),
        ("tags", tags_value(&msg.tags())),
        ("user_id", optional_text(msg.user_id())),
        ("display_name", optional_text(msg.display_name())),
        (
            "color",
            text(&format!("#{:02X}{:02X}{:02X}", color.red, color.green, color.blue)),
        ),
        ("badges", Value::Array(badges)),
        ("emote_sets", Value::Array(emote_sets)),
    ])
}

#[test]
fn global_user_state_serde() {
    let input = "@badge-info=;badges=;color=#FF69B4;display-name=shaken_bot;emote-sets=0;user-id=241015868;user-type= :tmi.twitch.tv GLOBALUSERSTATE\r\n";
    let msg = GlobalUserState::from_irc(first_line(input)).unwrap();
    let fields = global_user_state_fields(&msg);
    assert_eq!(fields.get("color").unwrap(), &text("#FF69B4"));
    for back in vec![round_trip_json(&fields), round_trip_rmp(&fields)] {
        let raw = raw_of(&back);
        let line = IrcMessage::parse(MaybeOwned::Owned(raw)).unwrap();
        let again = GlobalUserState::from_irc(line).unwrap();
        assert_eq!(global_user_state_fields(&again), fields);
    }
}

#[test]
fn privmsg_serde() {
    let input = &[
        ":test!user@host PRIVMSG #museun :this is a test\r\n",
        ":test!user@host PRIVMSG #museun :\u{FFFD}\u{1F468}\r\n",
        ":test!user@host PRIVMSG #museun :\x01ACTION this is a test\x01\r\n",
        ":test!user@host PRIVMSG #museun :\x01FOOBAR this is a test\x01\r\n",
    ];
    for input in input {
        let msg = Privmsg::from_irc(first_line(input)).unwrap();
        let fields = privmsg_fields(&msg);
        for back in vec![round_trip_json(&fields), round_trip_rmp(&fields)] {
            let raw = raw_of(&back);
            assert_eq!(&raw, input);
            let line = IrcMessage::parse(MaybeOwned::Owned(raw)).unwrap();
            let again = Privmsg::from_irc(line).unwrap();
            assert_eq!(privmsg_fields(&again), fields);
            assert_eq!(again.ctcp(), msg.ctcp());
        }
    }
}

#[test]
fn room_state_serde() {
    let input = ":tmi.twitch.tv ROOMSTATE #museun\r\n";
    let msg = RoomState::from_irc(first_line(input)).unwrap();
    let fields = room_state_fields(&msg);
    for back in vec![round_trip_json(&fields), round_trip_rmp(&fields)] {
        let raw = raw_of(&back);
        assert_eq!(raw, input);
        let line = IrcMessage::parse(MaybeOwned::Owned(raw)).unwrap();
        let again = RoomState::from_irc(line).unwrap();
        assert_eq!(room_state_fields(&again), fields);
    }
}

#[test]
fn user_notice_serde() {
    let input = &[
        ":tmi.twitch.tv USERNOTICE #museun :This room is no longer in slow mode.\r\n",
        ":tmi.twitch.tv USERNOTICE #museun\r\n",
        "@badge-info=subscriber/8;badges=subscriber/6,bits/100;color=#59517B;display-name=lllAirJordanlll;emotes=;flags=;id=3198b02c-eaf4-4904-9b07-eb1b2b12ba50;login=lllairjordanlll;mod=0;msg-id=resub;msg-param-cumulative-months=8;msg-param-months=0;msg-param-should-share-streak=0;msg-param-sub-plan-name=Channel\\sSubscription\\s(giantwaffle);msg-param-sub-plan=1000;room-id=22552479;subscriber=1;system-msg=lllAirJordanlll\\ssubscribed\\sat\\sTier\\s1.\\sThey\'ve\\ssubscribed\\sfor\\s8\\smonths!;tmi-sent-ts=1580932171144;user-id=44979519;user-type= :tmi.twitch.tv USERNOTICE #giantwaffle\r\n",
    ];
    for input in input {
        let msg = UserNotice::from_irc(first_line(input)).unwrap();
        let fields = user_notice_fields(&msg);
        for back in vec![round_trip_json(&fields), round_trip_rmp(&fields)] {
            let raw = raw_of(&back);
            assert_eq!(&raw, input);
            let line = IrcMessage::parse(MaybeOwned::Owned(raw)).unwrap();
            let again = UserNotice::from_irc(line).unwrap();
            assert_eq!(user_notice_fields(&again), fields);
        }
    }
}

#[test]
fn user_state_serde() {
    let input = "@badges=bits/1000;badge-info=moderator :tmi.twitch.tv USERSTATE #museun\r\n";
    let msg = UserState::from_irc(first_line(input)).unwrap();
    let fields = user_state_fields(&msg);
    assert_eq!(
        fields.get("tags").unwrap().get("badges").unwrap(),
        &text("bits/1000")
    );
    for back in vec![round_trip_json(&fields), round_trip_rmp(&fields)] {
        let raw = raw_of(&back);
        assert_eq!(raw, input);
        let line = IrcMessage::parse(MaybeOwned::Owned(raw)).unwrap();
        let again = UserState::from_irc(line).unwrap();
        assert_eq!(user_state_fields(&again), fields);
    }
}

#[test]
fn whisper_serde() {
    let input = ":test!user@host WHISPER museun :this is a test\r\n";
    let msg = Whisper::from_irc(first_line(input)).unwrap();
    let fields = whisper_fields(&msg);
    for back in vec![round_trip_json(&fields), round_trip_rmp(&fields)] {
        let raw = raw_of(&back);
        assert_eq!(raw, input);
        let line = IrcMessage::parse(MaybeOwned::Owned(raw)).unwrap();
        let again = Whisper::from_irc(line).unwrap();
        assert_eq!(whisper_fields(&again), fields);
    }
}
