//! The chat settings of a channel.

use crate::ascii::{HYPHEN, ONE, ZERO};
use crate::error::{MessageError, ParseError};
use crate::irc::message::{IrcMessage, MessageView};
use crate::irc::tags::{pairs_fit, ParsedTag, TagIndices, Tags};
use crate::maybe_owned::{MaybeOwned, MaybeOwnedIndex};
use crate::messages::decode::FromIrcMessage;
use crate::messages::tags::{line_of, made_view, HasTags, Line};
use crate::num::parse_unsigned;
use crate::parse::FromText;
use crate::text::{is_byte, is_byte_pair};
use pipe_trait::Pipe;
use std::time::Duration;
use vstd::prelude::*;
use vstd::string::StringSliceAdditionalSpecFns;
use wrap_result::WrapOk;

verus! {

/// The duration of `secs` whole seconds, as `Duration::from_secs` makes it.
pub uninterp spec fn duration_of_secs(secs: u64) -> Duration;

/// `Duration::from_secs` of the standard library: the duration of that many whole seconds.
/// It depends on nothing but its argument.
pub assume_specification[ Duration::from_secs ](secs: u64) -> (duration: Duration)
    ensures
        duration == duration_of_secs(secs),
;

/// The parameters for a room being in follower-only mode
#[derive(Debug, Copy, Clone, PartialEq)]
pub enum FollowersOnly {
    /// The mode is disabled
    Disabled,
    /// All followers are allowed to speak
    All,
    /// Only those following for this long are allowed to speak
    Limit(Duration),
}

impl View for FollowersOnly {
    type V = FollowersOnly;

    open spec fn view(&self) -> FollowersOnly {
        *self
    }
}

/// The number of seconds in a day.
pub const SECONDS_PER_DAY: u64 = 86400;

/// The mode that the text of the tag denotes: `-1` disables it, `0` admits every follower, and
/// a positive number is a number of days. Zero in any other form is rejected, and a number of
/// days whose seconds exceed 64 bits is rejected as too large.
pub open spec fn parse_followers_only(text: Seq<u8>) -> Result<FollowersOnly, ParseError> {
    if text == seq![HYPHEN, ONE] {
        Ok(FollowersOnly::Disabled)
    } else if text == seq![ZERO] {
        Ok(FollowersOnly::All)
    } else {
        match parse_unsigned(text, u64::MAX as nat) {
            Err(e) => Err(e),
            Ok(days) => if days == 0 {
                Err(ParseError::NotPositive)
            } else if days * SECONDS_PER_DAY <= u64::MAX {
                Ok(FollowersOnly::Limit(duration_of_secs((days * SECONDS_PER_DAY) as u64)))
            } else {
                Err(ParseError::Overflow)
            },
        }
    }
}

/// The seconds of a number of days.
fn seconds_of_days(days: u64) -> (secs: u64)
    requires
        days * SECONDS_PER_DAY <= u64::MAX,
    ensures
        secs == days * SECONDS_PER_DAY,
{
    days * SECONDS_PER_DAY
}

/// The limit of a number of seconds.
fn limit_of_seconds(secs: u64) -> (mode: FollowersOnly)
    ensures
        mode == FollowersOnly::Limit(duration_of_secs(secs)),
{
    FollowersOnly::Limit(Duration::from_secs(secs))
}

/// `pipe_trait::Pipe::pipe`, twice: the value is handed to the first function, and what that
/// returns to the second. Here the functions turn days into seconds and seconds into a limit.
#[verifier::external_body]
fn limit_of_days(days: u64) -> (mode: FollowersOnly)
    requires
        days * SECONDS_PER_DAY <= u64::MAX,
    ensures
        mode == FollowersOnly::Limit(duration_of_secs((days * SECONDS_PER_DAY) as u64)),
{
    days.pipe(|days| seconds_of_days(days)).pipe(|secs| limit_of_seconds(secs))
}

/// The decoding that succeeded with `mode`.
pub open spec fn success(mode: FollowersOnly) -> Result<FollowersOnly, ParseError> {
    Ok(mode)
}

/// `wrap_result::WrapOk::wrap_ok`: the value, unchanged, as a success.
#[verifier::external_body]
fn as_success(mode: FollowersOnly) -> (wrapped: ParsedTag<FollowersOnly>)
    ensures
        wrapped == success(mode),
{
    mode.wrap_ok()
}

impl FollowersOnly {
    /// Decodes the text of the `followers-only` tag: see `parse_followers_only`.
    pub fn from_str(s: &str) -> (r: Result<FollowersOnly, ParseError>)
        ensures
            r == parse_followers_only(s.spec_bytes()),
    {
        let bytes = s.as_bytes();
        if is_byte_pair(bytes, HYPHEN, ONE) {
            return as_success(FollowersOnly::Disabled);
        }
        if is_byte(bytes, ZERO) {
            return as_success(FollowersOnly::All);
        }
        match u64::from_text(s) {
            Err(e) => Err(e),
            Ok(days) => if days == 0 {
                Err(ParseError::NotPositive)
            } else if days <= u64::MAX / SECONDS_PER_DAY {
                assert(days * SECONDS_PER_DAY <= u64::MAX) by (nonlinear_arith)
                    requires
                        days <= u64::MAX / SECONDS_PER_DAY,
                        SECONDS_PER_DAY == 86400,
                ;
                as_success(limit_of_days(days))
            } else {
                assert(days * SECONDS_PER_DAY > u64::MAX) by (nonlinear_arith)
                    requires
                        days > u64::MAX / SECONDS_PER_DAY,
                        SECONDS_PER_DAY == 86400,
                ;
                Err(ParseError::Overflow)
            },
        }
    }

    /// The time for which one must have followed to speak: nothing where the mode is
    /// disabled, no time at all where every follower may speak.
    pub fn optional(&self) -> (limit: Option<Duration>)
        ensures
            limit == match *self {
                FollowersOnly::Disabled => None::<Duration>,
                FollowersOnly::All => Some(duration_of_secs(0)),
                FollowersOnly::Limit(duration) => Some(duration),
            },
    {
        match self {
            Self::Disabled => None,
            Self::All => Some(Duration::from_secs(0)),
            Self::Limit(duration) => Some(*duration),
        }
    }
}

impl FromText for FollowersOnly {
    open spec fn decoded(text: Seq<u8>) -> Result<FollowersOnly, ParseError> {
        parse_followers_only(text)
    }

    fn from_text(text: &str) -> (r: Result<FollowersOnly, ParseError>) {
        FollowersOnly::from_str(text)
    }
}

/// Identifies the channel's chat settings (e.g., slow mode duration).
#[derive(Debug, PartialEq)]
pub struct RoomState<'a> {
    raw: MaybeOwned<'a>,
    tags: TagIndices,
    channel: MaybeOwnedIndex,
}

/// What a `RoomState` holds: its line and the ranges of its parts.
pub struct RoomStateView {
    /// The line and the index of its tags.
    pub line: Line,
    /// The channel.
    pub channel: MaybeOwnedIndex,
}

impl<'a> View for RoomState<'a> {
    type V = RoomStateView;

    closed spec fn view(&self) -> RoomStateView {
        RoomStateView {
            line: Line { raw: self.raw.bytes(), tags: self.tags@ },
            channel: self.channel,
        }
    }
}

/// The `RoomState` that a line holds: its command is `ROOMSTATE` and its first parameter is
/// the channel.
pub open spec fn room_state_of(msg: MessageView) -> Result<RoomStateView, MessageError> {
    if msg.command.of(msg.raw) != "ROOMSTATE".spec_bytes() {
        Err(MessageError::InvalidCommand)
    } else {
        match msg.arg(0) {
            None => Err(MessageError::ExpectedArg { pos: 0 }),
            Some(channel) => Ok(RoomStateView { line: line_of(msg), channel }),
        }
    }
}

impl<'a> Clone for RoomState<'a> {
    fn clone(&self) -> (copy: Self)
        ensures
            copy@ == self@,
            copy.owns_text() == self.owns_text(),
    {
        proof {
            use_type_invariant(self);
        }
        RoomState {
            raw: self.raw.clone(),
            tags: self.tags.clone(),
            channel: self.channel,
        }
    }
}

impl<'a> HasTags<'a> for RoomState<'a> {
    open spec fn line(&self) -> Line {
        self@.line
    }

    /// The tags of the message.
    fn tags(&'a self) -> (tags: Tags<'a>)
        ensures
            tags.bytes() == self@.line.raw,
            tags.pairs() == self@.line.tags,
    {
        proof {
            use_type_invariant(self);
        }
        Tags::new(self.raw.as_str(), &self.tags)
    }
}

impl<'a> FromIrcMessage<'a> for RoomState<'a> {
    open spec fn made_of(msg: MessageView) -> Result<RoomStateView, MessageError> {
        room_state_of(msg)
    }

    /// Makes a `RoomState` of a line: see `room_state_of`.
    fn from_irc(msg: IrcMessage<'a>) -> (r: Result<RoomState<'a>, MessageError>)
        ensures
            made_view(r) == room_state_of(msg@),
    {
        msg.expect_command(IrcMessage::ROOM_STATE)?;
        let tags = msg.parse_tags();
        let channel = msg.expect_arg_index(0)?;
        Ok(RoomState { tags, channel, raw: msg.into_inner() })
    }

    /// Hands out the line that the message was made of.
    fn into_inner(self) -> (text: MaybeOwned<'a>)
        ensures
            text.bytes() == self@.line.raw,
            text is Owned == self.owns_text(),
    {
        self.raw
    }
}

impl<'a> RoomState<'a> {
    /// Every range lies within the line, on character boundaries.
    #[verifier::type_invariant]
    pub closed spec fn well_formed(&self) -> bool {
        &&& pairs_fit(self.raw.bytes(), self.tags@)
        &&& self.channel.fits(self.raw.bytes())
    }

    /// The line that this message was made of.
    pub fn raw(&self) -> (text: &str)
        ensures
            text.spec_bytes() == self@.line.raw,
    {
        self.raw.as_str()
    }

    /// Whether the message owns its text: then it holds bytes of its own and outlives the
    /// input that it was made of.
    pub closed spec fn owns_text(&self) -> bool {
        self.raw is Owned
    }

    /// The same message over an owned copy of its line: the copy holds bytes of its own, and
    /// every range into the line is a range into the copy.
    pub fn into_owned(self) -> (owned: RoomState<'static>)
        ensures
            owned@ == self@,
            owned.owns_text(),
    {
        proof {
            use_type_invariant(&self);
        }
        let RoomState { raw, tags, channel } = self;
        RoomState { raw: raw.into_owned(), tags, channel }
    }

    /// The channel that this event is happening on
    pub fn channel(&self) -> (text: &str)
        ensures
            text.spec_bytes() == self@.channel.of(self@.line.raw),
    {
        proof {
            use_type_invariant(self);
        }
        self.raw.slice(self.channel)
    }

    /// Whether this room is in emote only mode
    pub fn is_emote_only(&self) -> (held: bool)
        ensures
            held == self@.line.flag("emote-only".spec_bytes()),
    {
        self.tags().get_as_bool("emote-only")
    }

    /// Whether this room is in r9k mode
    pub fn is_r9k(&self) -> (held: bool)
        ensures
            held == self@.line.flag("r9k".spec_bytes()),
    {
        self.tags().get_as_bool("r9k")
    }

    /// The id of the room this message was sent to
    pub fn room_id(&self) -> (id: Option<ParsedTag<u64>>)
        ensures
            id == self@.line.parsed::<u64>("room-id".spec_bytes()),
    {
        self.tags().get_parsed("room-id")
    }

    /// Whether this room is in slow mode
    ///
    /// This returns the delay in which each message can be sent: the value of the tag, if it
    /// is there, is a number, and is larger than zero.
    pub fn is_slow_mode(&self) -> (delay: Option<u64>)
        ensures
            delay == match self@.line.parsed::<u64>("slow".spec_bytes()) {
                Some(Ok(secs)) => if secs > 0 {
                    Some(secs)
                } else {
                    None
                },
                _ => None,
            },
    {
        match self.tags().get_parsed::<u64>("slow") {
            Some(Ok(secs)) => if secs > 0 {
                Some(secs)
            } else {
                None
            },
            _ => None,
        }
    }

    /// Whether this room is in subs only mode
    pub fn is_subs_only(&self) -> (held: bool)
        ensures
            held == self@.line.flag("subs-only".spec_bytes()),
    {
        self.tags().get_as_bool("subs-only")
    }

    /// The `emote-only` tag.
    pub fn emote_only(&self) -> (value: Option<ParsedTag<bool>>)
        ensures
            value == self@.line.parsed::<bool>("emote-only".spec_bytes()),
    {
        self.tags().get_parsed("emote-only")
    }

    /// The `followers-only` tag.
    pub fn followers_only(&self) -> (value: Option<ParsedTag<FollowersOnly>>)
        ensures
            value == self@.line.parsed::<FollowersOnly>("followers-only".spec_bytes()),
    {
        self.tags().get_parsed("followers-only")
    }

    /// The `r9k` tag.
    pub fn r9k(&self) -> (value: Option<ParsedTag<bool>>)
        ensures
            value == self@.line.parsed::<bool>("r9k".spec_bytes()),
    {
        self.tags().get_parsed("r9k")
    }

    /// The `slow` tag.
    pub fn slow(&self) -> (value: Option<ParsedTag<u64>>)
        ensures
            value == self@.line.parsed::<u64>("slow".spec_bytes()),
    {
        self.tags().get_parsed("slow")
    }

    /// The `subs-only` tag.
    pub fn subs_only(&self) -> (value: Option<ParsedTag<bool>>)
        ensures
            value == self@.line.parsed::<bool>("subs-only".spec_bytes()),
    {
        self.tags().get_parsed("subs-only")
    }
}

/// An owned copy answers as the message it was copied from: what an accessor returns is
/// told by the view alone, and `into_owned` keeps the view. So the line, each part, each tag
/// and each list read from a tag are the same for both.
pub proof fn lemma_owned_room_state_answers_alike(msg: RoomState, owned: RoomState<'static>)
    requires
        owned@ == msg@,
    ensures
        owned@.line.raw == msg@.line.raw,
        owned@.channel.of(owned@.line.raw) == msg@.channel.of(msg@.line.raw),
        forall|key: Seq<u8>| owned@.line.tag(key) == msg@.line.tag(key),
        forall|key: Seq<u8>| owned@.line.flag(key) == msg@.line.flag(key),
        forall|key: Seq<u8>| owned@.line.parsed::<u64>(key) == msg@.line.parsed::<u64>(key),
        forall|key: Seq<u8>| owned@.line.parsed::<bool>(key) == msg@.line.parsed::<bool>(key),
        forall|key: Seq<u8>| owned@.line.parsed::<FollowersOnly>(key) == msg@.line.parsed::<FollowersOnly>(key),
{
}

} // verus!
