//! The settings of a user in a channel.

use crate::error::MessageError;
use crate::irc::message::{IrcMessage, MessageView};
use crate::irc::tags::{pairs_fit, ParsedTag, TagIndices, Tags};
use crate::maybe_owned::{optional_bytes, MaybeOwned, MaybeOwnedIndex};
use crate::messages::decode::FromIrcMessage;
use crate::messages::tags::{line_of, made_view, HasTags, Line};
use crate::parse::FromText;
use crate::twitch::MsgRange;
use crate::twitch::attributes::{Attribution, AttributionVec};
use crate::twitch::badge::{Badge, BadgeVec};
use crate::twitch::color::Color;
use crate::twitch::emotes::{Emote, EmoteVec};
use crate::twitch::flags::{Flag, FlagVec, Score};
use vstd::prelude::*;
use vstd::string::StringSliceAdditionalSpecFns;

verus! {

/// Identifies a user's chat settings or properties (e.g., chat color).
#[derive(Debug, PartialEq)]
pub struct UserState<'a> {
    raw: MaybeOwned<'a>,
    tags: TagIndices,
    channel: MaybeOwnedIndex,
}

/// What a `UserState` holds: its line and the ranges of its parts.
pub struct UserStateView {
    /// The line and the index of its tags.
    pub line: Line,
    /// The channel.
    pub channel: MaybeOwnedIndex,
}

impl<'a> View for UserState<'a> {
    type V = UserStateView;

    closed spec fn view(&self) -> UserStateView {
        UserStateView {
            line: Line { raw: self.raw.bytes(), tags: self.tags@ },
            channel: self.channel,
        }
    }
}

/// The `UserState` that a line holds: its command is `USERSTATE` and its first parameter is
/// the channel.
pub open spec fn user_state_of(msg: MessageView) -> Result<UserStateView, MessageError> {
    if msg.command.of(msg.raw) != "USERSTATE".spec_bytes() {
        Err(MessageError::InvalidCommand)
    } else {
        match msg.arg(0) {
            None => Err(MessageError::ExpectedArg { pos: 0 }),
            Some(channel) => Ok(UserStateView { line: line_of(msg), channel }),
        }
    }
}

impl<'a> Clone for UserState<'a> {
    fn clone(&self) -> (copy: Self)
        ensures
            copy@ == self@,
            copy.owns_text() == self.owns_text(),
    {
        proof {
            use_type_invariant(self);
        }
        UserState {
            raw: self.raw.clone(),
            tags: self.tags.clone(),
            channel: self.channel,
        }
    }
}

impl<'a> HasTags<'a> for UserState<'a> {
    open spec fn line(&self) -> Line {
        self@.line
    }

    /// The tags of the message.
    fn tags(&'a self) -> (tags: Tags<'a>)
        ensures
            tags.bytes() == self@.line.raw,
            tags.pairs() == self@.line.tags,
    {
        proof {
            use_type_invariant(self);
        }
        Tags::new(self.raw.as_str(), &self.tags)
    }
}

impl<'a> FromIrcMessage<'a> for UserState<'a> {
    open spec fn made_of(msg: MessageView) -> Result<UserStateView, MessageError> {
        user_state_of(msg)
    }

    /// Makes a `UserState` of a line: see `user_state_of`.
    fn from_irc(msg: IrcMessage<'a>) -> (r: Result<UserState<'a>, MessageError>)
        ensures
            made_view(r) == user_state_of(msg@),
    {
        msg.expect_command(IrcMessage::USER_STATE)?;
        let tags = msg.parse_tags();
        let channel = msg.expect_arg_index(0)?;
        Ok(UserState { tags, channel, raw: msg.into_inner() })
    }

    /// Hands out the line that the message was made of.
    fn into_inner(self) -> (text: MaybeOwned<'a>)
        ensures
            text.bytes() == self@.line.raw,
            text is Owned == self.owns_text(),
    {
        self.raw
    }
}

impl<'a> UserState<'a> {
    /// Every range lies within the line, on character boundaries.
    #[verifier::type_invariant]
    pub closed spec fn well_formed(&self) -> bool {
        &&& pairs_fit(self.raw.bytes(), self.tags@)
        &&& self.channel.fits(self.raw.bytes())
    }

    /// The line that this message was made of.
    pub fn raw(&self) -> (text: &str)
        ensures
            text.spec_bytes() == self@.line.raw,
    {
        self.raw.as_str()
    }

    /// Whether the message owns its text: then it holds bytes of its own and outlives the
    /// input that it was made of.
    pub closed spec fn owns_text(&self) -> bool {
        self.raw is Owned
    }

    /// The same message over an owned copy of its line: the copy holds bytes of its own, and
    /// every range into the line is a range into the copy.
    pub fn into_owned(self) -> (owned: UserState<'static>)
        ensures
            owned@ == self@,
            owned.owns_text(),
    {
        proof {
            use_type_invariant(&self);
        }
        let UserState { raw, tags, channel } = self;
        UserState { raw: raw.into_owned(), tags, channel }
    }

    /// Channel this event happened on
    pub fn channel(&self) -> (text: &str)
        ensures
            text.spec_bytes() == self@.channel.of(self@.line.raw),
    {
        proof {
            use_type_invariant(self);
        }
        self.raw.slice(self.channel)
    }

    /// Helper function to return information that can be parsed as AttributionVec.
    fn tag_to_attribution_vec<Ref: FromText, Attr: FromText, T: Attribution<Ref, Attr>>(
        &self,
        tag: &str,
    ) -> (list: AttributionVec<Ref, Attr, T>)
        ensures
            list@ == self@.line.list::<Ref, Attr, T>(tag.spec_bytes()),
    {
        self.tags().get_list(tag)
    }

    /// Metadata related to the chat badges
    ///
    /// Currently used only for `subscriber`, to indicate the exact number of
    /// months the user has been a subscriber
    pub fn badge_info(&self) -> (list: BadgeVec)
        ensures
            list@ == self@.line.list::<Badge, u64, Badge>("badge-info".spec_bytes()),
    {
        self.tag_to_attribution_vec("badge-info")
    }

    /// Badges attached to this message
    pub fn badges(&self) -> (list: BadgeVec)
        ensures
            list@ == self@.line.list::<Badge, u64, Badge>("badges".spec_bytes()),
    {
        self.tag_to_attribution_vec("badges")
    }

    /// The user's color, if set
    pub fn color(&self) -> (value: Option<ParsedTag<Color>>)
        ensures
            value == self@.line.parsed::<Color>("color".spec_bytes()),
    {
        self.tags().get_parsed("color")
    }

    /// The user's display name, if set
    pub fn display_name(&self) -> (value: Option<&str>)
        ensures
            optional_bytes(value) == self@.line.tag("display-name".spec_bytes()),
    {
        self.tags().get("display-name")
    }

    /// Emotes attached to this message
    pub fn emotes(&self) -> (list: EmoteVec)
        ensures
            list@ == self@.line.list::<usize, MsgRange, Emote>("emotes".spec_bytes()),
    {
        self.tag_to_attribution_vec("emotes")
    }

    /// Flags attached to this message
    pub fn flags(&self) -> (list: FlagVec)
        ensures
            list@ == self@.line.list::<MsgRange, Score, Flag>("flags".spec_bytes()),
    {
        self.tag_to_attribution_vec("flags")
    }

    /// Whether this user is a moderator
    pub fn is_moderator(&self) -> (held: bool)
        ensures
            held == self@.line.flag("mod".spec_bytes()),
    {
        self.tags().get_as_bool("mod")
    }
}

/// An owned copy answers as the message it was copied from: what an accessor returns is
/// told by the view alone, and `into_owned` keeps the view. So the line, each part, each tag
/// and each list read from a tag are the same for both.
pub proof fn lemma_owned_user_state_answers_alike(msg: UserState, owned: UserState<'static>)
    requires
        owned@ == msg@,
    ensures
        owned@.line.raw == msg@.line.raw,
        owned@.channel.of(owned@.line.raw) == msg@.channel.of(msg@.line.raw),
        forall|key: Seq<u8>| owned@.line.tag(key) == msg@.line.tag(key),
        forall|key: Seq<u8>| owned@.line.flag(key) == msg@.line.flag(key),
        forall|key: Seq<u8>| owned@.line.parsed::<Color>(key) == msg@.line.parsed::<Color>(key),
        forall|key: Seq<u8>|
            owned@.line.list::<Badge, u64, Badge>(key) == msg@.line.list::<Badge, u64, Badge>(key),
        forall|key: Seq<u8>|
            owned@.line.list::<usize, MsgRange, Emote>(key) == msg@.line.list::<usize, MsgRange, Emote>(key),
        forall|key: Seq<u8>|
            owned@.line.list::<MsgRange, Score, Flag>(key) == msg@.line.list::<MsgRange, Score, Flag>(key),
{
}

} // verus!
