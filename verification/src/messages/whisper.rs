//! A message that a user sent to this user alone.

use crate::error::MessageError;
use crate::irc::message::{IrcMessage, MessageView};
use crate::irc::tags::{pairs_fit, ParsedTag, TagIndices, Tags};
use crate::maybe_owned::{optional_bytes, MaybeOwned, MaybeOwnedIndex};
use crate::messages::decode::FromIrcMessage;
use crate::messages::tags::{line_of, made_view, HasTags, Line};
use crate::parse::FromText;
use crate::twitch::MsgRange;
use crate::twitch::attributes::{Attribution, AttributionVec};
use crate::twitch::badge::{
    any_badge_of, any_of, no_of_each, yes_of_some, Badge, BadgeVec, BadgeView,
};
use crate::twitch::color::Color;
use crate::twitch::emotes::{Emote, EmoteVec};
use crate::twitch::flags::{Flag, FlagVec, Score};
use vstd::prelude::*;
use vstd::string::StringSliceAdditionalSpecFns;

verus! {

/// Message sent by another user to your user (a 'DM')
#[derive(Debug, PartialEq)]
pub struct Whisper<'a> {
    raw: MaybeOwned<'a>,
    tags: TagIndices,
    name: MaybeOwnedIndex,
    data: MaybeOwnedIndex,
}

/// What a `Whisper` holds: its line and the ranges of its parts.
pub struct WhisperView {
    /// The line and the index of its tags.
    pub line: Line,
    /// The name of the sender.
    pub name: MaybeOwnedIndex,
    /// The text that the sender wrote.
    pub data: MaybeOwnedIndex,
}

impl<'a> View for Whisper<'a> {
    type V = WhisperView;

    closed spec fn view(&self) -> WhisperView {
        WhisperView {
            line: Line { raw: self.raw.bytes(), tags: self.tags@ },
            name: self.name,
            data: self.data,
        }
    }
}

/// The `Whisper` that a line holds: its command is `WHISPER`, its prefix names the sender, and
/// it has trailing data. The parameter that names the receiver is not kept.
pub open spec fn whisper_of(msg: MessageView) -> Result<WhisperView, MessageError> {
    if msg.command.of(msg.raw) != "WHISPER".spec_bytes() {
        Err(MessageError::InvalidCommand)
    } else {
        match msg.nick() {
            None => Err(MessageError::ExpectedNick),
            Some(name) => match msg.data {
                None => Err(MessageError::ExpectedData),
                Some(data) => Ok(WhisperView { line: line_of(msg), name, data }),
            },
        }
    }
}

impl<'a> Clone for Whisper<'a> {
    fn clone(&self) -> (copy: Self)
        ensures
            copy@ == self@,
            copy.owns_text() == self.owns_text(),
    {
        proof {
            use_type_invariant(self);
        }
        Whisper {
            raw: self.raw.clone(),
            tags: self.tags.clone(),
            name: self.name,
            data: self.data,
        }
    }
}

impl<'a> HasTags<'a> for Whisper<'a> {
    open spec fn line(&self) -> Line {
        self@.line
    }

    /// The tags of the message.
    fn tags(&'a self) -> (tags: Tags<'a>)
        ensures
            tags.bytes() == self@.line.raw,
            tags.pairs() == self@.line.tags,
    {
        proof {
            use_type_invariant(self);
        }
        Tags::new(self.raw.as_str(), &self.tags)
    }
}

impl<'a> FromIrcMessage<'a> for Whisper<'a> {
    open spec fn made_of(msg: MessageView) -> Result<WhisperView, MessageError> {
        whisper_of(msg)
    }

    /// Makes a `Whisper` of a line: see `whisper_of`.
    fn from_irc(msg: IrcMessage<'a>) -> (r: Result<Whisper<'a>, MessageError>)
        ensures
            made_view(r) == whisper_of(msg@),
    {
        msg.expect_command(IrcMessage::WHISPER)?;
        let name = msg.expect_nick()?;
        let data = msg.expect_data_index()?;
        let tags = msg.parse_tags();
        Ok(Whisper { name, data, tags, raw: msg.into_inner() })
    }

    /// Hands out the line that the message was made of.
    fn into_inner(self) -> (text: MaybeOwned<'a>)
        ensures
            text.bytes() == self@.line.raw,
            text is Owned == self.owns_text(),
    {
        self.raw
    }
}

impl<'a> Whisper<'a> {
    /// Every range lies within the line, on character boundaries.
    #[verifier::type_invariant]
    pub closed spec fn well_formed(&self) -> bool {
        &&& pairs_fit(self.raw.bytes(), self.tags@)
        &&& self.name.fits(self.raw.bytes())
        &&& self.data.fits(self.raw.bytes())
    }

    /// The line that this message was made of.
    pub fn raw(&self) -> (text: &str)
        ensures
            text.spec_bytes() == self@.line.raw,
    {
        self.raw.as_str()
    }

    /// Whether the message owns its text: then it holds bytes of its own and outlives the
    /// input that it was made of.
    pub closed spec fn owns_text(&self) -> bool {
        self.raw is Owned
    }

    /// The same message over an owned copy of its line: the copy holds bytes of its own, and
    /// every range into the line is a range into the copy.
    pub fn into_owned(self) -> (owned: Whisper<'static>)
        ensures
            owned@ == self@,
            owned.owns_text(),
    {
        proof {
            use_type_invariant(&self);
        }
        let Whisper { raw, tags, name, data } = self;
        Whisper { raw: raw.into_owned(), tags, name, data }
    }

    /// User who sent this message
    pub fn name(&self) -> (text: &str)
        ensures
            text.spec_bytes() == self@.name.of(self@.line.raw),
    {
        proof {
            use_type_invariant(self);
        }
        self.raw.slice(self.name)
    }

    /// Data that the user provided
    pub fn data(&self) -> (text: &str)
        ensures
            text.spec_bytes() == self@.data.of(self@.line.raw),
    {
        proof {
            use_type_invariant(self);
        }
        self.raw.slice(self.data)
    }

    /// The color of the user who sent this message, if set
    pub fn color(&self) -> (value: Option<ParsedTag<Color>>)
        ensures
            value == self@.line.parsed::<Color>("color".spec_bytes()),
    {
        self.tags().get_parsed("color")
    }

    /// Helper function to return information that can be parsed as AttributionVec.
    fn tag_to_attribution_vec<Ref: FromText, Attr: FromText, T: Attribution<Ref, Attr>>(
        &self,
        tag: &str,
    ) -> (list: AttributionVec<Ref, Attr, T>)
        ensures
            list@ == self@.line.list::<Ref, Attr, T>(tag.spec_bytes()),
    {
        self.tags().get_list(tag)
    }

    /// Returns the display name of the user, if set.
    ///
    /// Users can change the casing and encoding of their names, if they choose
    /// to.
    ///
    /// By default, their display name is not set. If the user **foo** changes
    /// their display name to **FOO** then this'll return that **FOO**.
    ///
    /// Otherwise it'll return `None`.
    pub fn display_name(&self) -> (value: Option<&str>)
        ensures
            optional_bytes(value) == self@.line.tag("display-name".spec_bytes()),
    {
        self.tags().get("display-name")
    }

    /// Metadata related to the chat badges
    pub fn badge_info(&self) -> (list: BadgeVec)
        ensures
            list@ == self@.line.list::<Badge, u64, Badge>("badge-info".spec_bytes()),
    {
        self.tag_to_attribution_vec("badge-info")
    }

    /// Badges attached to this message
    pub fn badges(&self) -> (list: BadgeVec)
        ensures
            list@ == self@.line.list::<Badge, u64, Badge>("badges".spec_bytes()),
    {
        self.tag_to_attribution_vec("badges")
    }

    /// Emotes attached to this message
    pub fn emotes(&self) -> (list: EmoteVec)
        ensures
            list@ == self@.line.list::<usize, MsgRange, Emote>("emotes".spec_bytes()),
    {
        self.tag_to_attribution_vec("emotes")
    }

    /// Flags attached to this message
    pub fn flags(&self) -> (list: FlagVec)
        ensures
            list@ == self@.line.list::<MsgRange, Score, Flag>("flags".spec_bytes()),
    {
        self.tag_to_attribution_vec("flags")
    }

    /// The badges of the sender.
    pub open spec fn badge_views(&self) -> Seq<BadgeView> {
        self@.line.list::<Badge, u64, Badge>("badges".spec_bytes())
    }

    /// Helper function that checks if any badge fulfills a specific requirement. Intended to
    /// be used with the `Badge::is_*` functions: the answer is yes where `is_badge_fn` says
    /// yes of some badge of the sender, and no where it says no of each.
    fn any_badge<F: Fn(&Badge) -> bool>(&self, is_badge_fn: F) -> (held: bool)
        requires
            forall|badge: &Badge| is_badge_fn.requires((badge,)),
        ensures
            held ==> yes_of_some(is_badge_fn, self.badge_views()),
            !held ==> no_of_each(is_badge_fn, self.badge_views()),
    {
        let badges = self.badges();
        any_badge_of(badges.as_slice(), is_badge_fn)
    }

    /// Whether the user sending this message was a staff member
    pub fn is_staff(&self) -> (held: bool)
        ensures
            held == any_of(self.badge_views(), |badge: BadgeView| badge is Staff),
    {
        self.any_badge(Badge::is_staff)
    }

    /// Whether the user sending this message had turbo
    pub fn is_turbo(&self) -> (held: bool)
        ensures
            held == any_of(self.badge_views(), |badge: BadgeView| badge is Turbo),
    {
        self.any_badge(Badge::is_turbo)
    }

    /// Whether the user sending this message was a global moderator
    pub fn is_global_moderator(&self) -> (held: bool)
        ensures
            held == any_of(self.badge_views(), |badge: BadgeView| badge is GlobalMod),
    {
        self.any_badge(Badge::is_global_mod)
    }

    /// The timestamp of when this message was received by Twitch
    pub fn tmi_sent_ts(&self) -> (value: Option<ParsedTag<u64>>)
        ensures
            value == self@.line.parsed::<u64>("tmi-sent-ts".spec_bytes()),
    {
        self.tags().get_parsed("tmi-sent-ts")
    }

    /// The id of the user who sent this message
    pub fn user_id(&self) -> (value: Option<ParsedTag<u64>>)
        ensures
            value == self@.line.parsed::<u64>("user-id".spec_bytes()),
    {
        self.tags().get_parsed("user-id")
    }
}

/// An owned copy answers as the message it was copied from: what an accessor returns is
/// told by the view alone, and `into_owned` keeps the view. So the line, each part, each tag
/// and each list read from a tag are the same for both.
pub proof fn lemma_owned_whisper_answers_alike(msg: Whisper, owned: Whisper<'static>)
    requires
        owned@ == msg@,
    ensures
        owned@.line.raw == msg@.line.raw,
        owned@.name.of(owned@.line.raw) == msg@.name.of(msg@.line.raw),
        owned@.data.of(owned@.line.raw) == msg@.data.of(msg@.line.raw),
        forall|key: Seq<u8>| owned@.line.tag(key) == msg@.line.tag(key),
        forall|key: Seq<u8>| owned@.line.flag(key) == msg@.line.flag(key),
        forall|key: Seq<u8>| owned@.line.parsed::<u64>(key) == msg@.line.parsed::<u64>(key),
        forall|key: Seq<u8>| owned@.line.parsed::<Color>(key) == msg@.line.parsed::<Color>(key),
        forall|key: Seq<u8>|
            owned@.line.list::<Badge, u64, Badge>(key) == msg@.line.list::<Badge, u64, Badge>(key),
        forall|key: Seq<u8>|
            owned@.line.list::<usize, MsgRange, Emote>(key) == msg@.line.list::<usize, MsgRange, Emote>(key),
        forall|key: Seq<u8>|
            owned@.line.list::<MsgRange, Score, Flag>(key) == msg@.line.list::<MsgRange, Score, Flag>(key),
{
}

} // verus!
