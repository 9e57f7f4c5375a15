//! A message that a user sent to a channel.

use crate::ascii::{SPACE, START_OF_HEADING};
use crate::error::MessageError;
use crate::irc::message::{span, IrcMessage, MessageView};
use crate::irc::tags::{pairs_fit, ParsedTag, TagIndices, Tags};
use crate::maybe_owned::{optional_bytes, optional_of, MaybeOwned, MaybeOwnedIndex};
use crate::messages::decode::FromIrcMessage;
use crate::messages::tags::{line_of, made_view, HasTags, Line};
use crate::parse::FromText;
use crate::text::{find_byte, index_of, lemma_beside_ascii, lemma_find_byte, range_eq};
use crate::twitch::MsgRange;
use crate::twitch::attributes::{option_view, Attribution, AttributionVec};
use crate::twitch::badge::{
    any_badge_of, any_of, no_of_each, yes_of_some, Badge, BadgeVec, BadgeView,
};
use crate::twitch::color::Color;
use crate::twitch::emotes::{Emote, EmoteVec};
use crate::twitch::flags::{Flag, FlagVec, Score};
use vstd::prelude::*;
use vstd::string::StringSliceAdditionalSpecFns;
use vstd::utf8::*;

verus! {

/// Some PRIVMSGs are considered 'CTCP' (client-to-client protocol)
///
/// This is a tag-type for determining what kind of CTCP it was
#[derive(Debug, Clone, PartialEq)]
pub enum Ctcp<'a> {
    /// An action CTCP, sent by the user when they do `/me` or `/action`
    Action,
    /// An unknown CTCP
    Unknown {
        /// The unknown CTCP command
        command: &'a str,
    },
}

/// What a `Ctcp` holds.
pub enum CtcpView {
    /// An action.
    Action,
    /// An unknown command, with its bytes.
    Unknown(Seq<u8>),
}

impl<'a> View for Ctcp<'a> {
    type V = CtcpView;

    open spec fn view(&self) -> CtcpView {
        match self {
            Ctcp::Action => CtcpView::Action,
            Ctcp::Unknown { command } => CtcpView::Unknown(command.spec_bytes()),
        }
    }
}

/// The byte that marks both ends of a CTCP payload.
pub const CTCP_MARKER: u8 = START_OF_HEADING;

/// Message sent by a user
#[derive(Debug, PartialEq)]
pub struct Privmsg<'a> {
    raw: MaybeOwned<'a>,
    tags: TagIndices,
    name: MaybeOwnedIndex,
    channel: MaybeOwnedIndex,
    data: MaybeOwnedIndex,
    ctcp: Option<MaybeOwnedIndex>,
}

/// What a `Privmsg` holds: its line and the ranges of its parts.
pub struct PrivmsgView {
    /// The line and the index of its tags.
    pub line: Line,
    /// The name of the sender.
    pub name: MaybeOwnedIndex,
    /// The channel.
    pub channel: MaybeOwnedIndex,
    /// The text that the sender wrote, without the frame of a CTCP.
    pub data: MaybeOwnedIndex,
    /// The command of the CTCP, if the text was framed as one.
    pub ctcp: Option<MaybeOwnedIndex>,
}

impl<'a> View for Privmsg<'a> {
    type V = PrivmsgView;

    closed spec fn view(&self) -> PrivmsgView {
        PrivmsgView {
            line: Line { raw: self.raw.bytes(), tags: self.tags@ },
            name: self.name,
            channel: self.channel,
            data: self.data,
            ctcp: self.ctcp,
        }
    }
}

/// Whether the trailing data is framed as a CTCP payload: it begins and ends with the marker,
/// which are two bytes.
pub open spec fn is_framed(raw: Seq<u8>, data: MaybeOwnedIndex) -> bool {
    &&& data.start + 2 <= data.end <= raw.len()
    &&& raw[data.start as int] == CTCP_MARKER
    &&& raw[data.end - 1] == CTCP_MARKER
}

/// The command and the text of the trailing data. Data that is framed as a CTCP payload holds
/// the command up to the first space within the frame, and the text after it; a payload
/// without a space is an error. Other data is the text as it stands.
pub open spec fn ctcp_split(raw: Seq<u8>, data: MaybeOwnedIndex) -> Result<
    (MaybeOwnedIndex, Option<MaybeOwnedIndex>),
    MessageError,
> {
    if is_framed(raw, data) {
        let space = find_byte(raw, data.start + 1, data.end - 1, SPACE);
        if space < data.end - 1 {
            Ok((span(space + 1, data.end - 1), Some(span(data.start + 1, space))))
        } else {
            Err(MessageError::ExpectedData)
        }
    } else {
        Ok((data, None))
    }
}

/// The `Privmsg` that a line holds: its command is `PRIVMSG`, it has trailing data, its prefix
/// names the sender, and its first parameter is the channel.
pub open spec fn privmsg_of(msg: MessageView) -> Result<PrivmsgView, MessageError> {
    if msg.command.of(msg.raw) != "PRIVMSG".spec_bytes() {
        Err(MessageError::InvalidCommand)
    } else {
        match msg.data {
            None => Err(MessageError::ExpectedData),
            Some(data) => match ctcp_split(msg.raw, data) {
                Err(e) => Err(e),
                Ok((data, ctcp)) => match msg.nick() {
                    None => Err(MessageError::ExpectedNick),
                    Some(name) => match msg.arg(0) {
                        None => Err(MessageError::ExpectedArg { pos: 0 }),
                        Some(channel) => Ok(
                            PrivmsgView { line: line_of(msg), name, channel, data, ctcp },
                        ),
                    },
                },
            },
        }
    }
}

/// Splits trailing data into the command of a CTCP and the text: see `ctcp_split`.
fn split_ctcp(text: &str, data: MaybeOwnedIndex) -> (r: Result<
    (MaybeOwnedIndex, Option<MaybeOwnedIndex>),
    MessageError,
>)
    requires
        data.fits(text.spec_bytes()),
    ensures
        r == ctcp_split(text.spec_bytes(), data),
        r matches Ok(parts) ==> parts.0.fits(text.spec_bytes()) && (parts.1 matches Some(
            command,
        ) ==> command.fits(text.spec_bytes())),
{
    let bytes = text.as_bytes();
    if data.end - data.start < 2 || bytes[data.start] != CTCP_MARKER || bytes[data.end - 1]
        != CTCP_MARKER {
        return Ok((data, None));
    }
    let from: usize = data.start + 1;
    let to: usize = data.end - 1;
    let space = index_of(bytes, from, to, SPACE);
    proof {
        broadcast use encode_utf8_valid_utf8;

        lemma_find_byte(bytes@, from as int, to as int, SPACE);
        lemma_beside_ascii(bytes@, from as int);
        lemma_beside_ascii(bytes@, to as int);
    }
    if space < to {
        proof {
            lemma_beside_ascii(bytes@, space as int);
            lemma_beside_ascii(bytes@, space + 1);
        }
        Ok((MaybeOwnedIndex::raw(space + 1, to), Some(MaybeOwnedIndex::raw(from, space))))
    } else {
        Err(MessageError::ExpectedData)
    }
}

impl<'a> Clone for Privmsg<'a> {
    fn clone(&self) -> (copy: Self)
        ensures
            copy@ == self@,
            copy.owns_text() == self.owns_text(),
    {
        proof {
            use_type_invariant(self);
        }
        Privmsg {
            raw: self.raw.clone(),
            tags: self.tags.clone(),
            name: self.name,
            channel: self.channel,
            data: self.data,
            ctcp: self.ctcp,
        }
    }
}

impl<'a> HasTags<'a> for Privmsg<'a> {
    open spec fn line(&self) -> Line {
        self@.line
    }

    /// The tags of the message.
    fn tags(&'a self) -> (tags: Tags<'a>)
        ensures
            tags.bytes() == self@.line.raw,
            tags.pairs() == self@.line.tags,
    {
        proof {
            use_type_invariant(self);
        }
        Tags::new(self.raw.as_str(), &self.tags)
    }
}

impl<'a> FromIrcMessage<'a> for Privmsg<'a> {
    open spec fn made_of(msg: MessageView) -> Result<PrivmsgView, MessageError> {
        privmsg_of(msg)
    }

    /// Makes a `Privmsg` of a line: see `privmsg_of`.
    fn from_irc(msg: IrcMessage<'a>) -> (r: Result<Privmsg<'a>, MessageError>)
        ensures
            made_view(r) == privmsg_of(msg@),
    {
        msg.expect_command(IrcMessage::PRIVMSG)?;
        let index = msg.expect_data_index()?;
        let (data, ctcp) = split_ctcp(msg.get_raw(), index)?;
        let tags = msg.parse_tags();
        let name = msg.expect_nick()?;
        let channel = msg.expect_arg_index(0)?;
        Ok(Privmsg { tags, name, channel, data, ctcp, raw: msg.into_inner() })
    }

    /// Hands out the line that the message was made of.
    fn into_inner(self) -> (text: MaybeOwned<'a>)
        ensures
            text.bytes() == self@.line.raw,
            text is Owned == self.owns_text(),
    {
        self.raw
    }
}

impl<'a> Privmsg<'a> {
    /// Every range lies within the line, on character boundaries.
    #[verifier::type_invariant]
    pub closed spec fn well_formed(&self) -> bool {
        &&& pairs_fit(self.raw.bytes(), self.tags@)
        &&& self.name.fits(self.raw.bytes())
        &&& self.channel.fits(self.raw.bytes())
        &&& self.data.fits(self.raw.bytes())
        &&& self.ctcp matches Some(ctcp) ==> ctcp.fits(self.raw.bytes())
    }

    /// The line that this message was made of.
    pub fn raw(&self) -> (text: &str)
        ensures
            text.spec_bytes() == self@.line.raw,
    {
        self.raw.as_str()
    }

    /// Whether the message owns its text: then it holds bytes of its own and outlives the
    /// input that it was made of.
    pub closed spec fn owns_text(&self) -> bool {
        self.raw is Owned
    }

    /// The same message over an owned copy of its line: the copy holds bytes of its own, and
    /// every range into the line is a range into the copy.
    pub fn into_owned(self) -> (owned: Privmsg<'static>)
        ensures
            owned@ == self@,
            owned.owns_text(),
    {
        proof {
            use_type_invariant(&self);
        }
        let Privmsg { raw, tags, name, channel, data, ctcp } = self;
        Privmsg { raw: raw.into_owned(), tags, name, channel, data, ctcp }
    }

    /// User who sent this message
    pub fn name(&self) -> (text: &str)
        ensures
            text.spec_bytes() == self@.name.of(self@.line.raw),
    {
        proof {
            use_type_invariant(self);
        }
        self.raw.slice(self.name)
    }

    /// Channel this message was sent on
    pub fn channel(&self) -> (text: &str)
        ensures
            text.spec_bytes() == self@.channel.of(self@.line.raw),
    {
        proof {
            use_type_invariant(self);
        }
        self.raw.slice(self.channel)
    }

    /// Data that the user provided
    pub fn data(&self) -> (text: &str)
        ensures
            text.spec_bytes() == self@.data.of(self@.line.raw),
    {
        proof {
            use_type_invariant(self);
        }
        self.raw.slice(self.data)
    }

    /// Gets the 'CTCP' kind associated with this message, if any
    pub fn ctcp(&self) -> (kind: Option<Ctcp<'_>>)
        ensures
            option_view(kind) == match self@.ctcp {
                Some(command) => if command.of(self@.line.raw) == "ACTION".spec_bytes() {
                    Some(CtcpView::Action)
                } else {
                    Some(CtcpView::Unknown(command.of(self@.line.raw)))
                },
                None => None,
            },
    {
        proof {
            use_type_invariant(self);
        }
        match self.ctcp {
            Some(index) => {
                let command = self.raw.slice(index);
                let bytes = command.as_bytes();
                assert(bytes@.subrange(0, bytes@.len() as int) =~= bytes@);
                if range_eq(bytes, 0, bytes.len(), "ACTION".as_bytes()) {
                    Some(Ctcp::Action)
                } else {
                    Some(Ctcp::Unknown { command })
                }
            },
            None => None,
        }
    }

    /// Whether this message was an Action (a `/me` or `/action`)
    pub fn is_action(&self) -> (held: bool)
        ensures
            held == (self@.ctcp matches Some(command) && command.of(self@.line.raw)
                == "ACTION".spec_bytes()),
    {
        matches!(self.ctcp(), Some(Ctcp::Action))
    }

    /// Helper function to return information that can be parsed as AttributionVec.
    fn tag_to_attribution_vec<Ref: FromText, Attr: FromText, T: Attribution<Ref, Attr>>(
        &self,
        tag: &str,
    ) -> (list: AttributionVec<Ref, Attr, T>)
        ensures
            list@ == self@.line.list::<Ref, Attr, T>(tag.spec_bytes()),
    {
        self.tags().get_list(tag)
    }

    /// Metadata related to the chat badges
    ///
    /// Currently used only for `subscriber`, to indicate the exact number of
    /// months the user has been a subscriber
    pub fn badge_info(&self) -> (list: BadgeVec)
        ensures
            list@ == self@.line.list::<Badge, u64, Badge>("badge-info".spec_bytes()),
    {
        self.tag_to_attribution_vec("badge-info")
    }

    /// Badges attached to this message
    pub fn badges(&self) -> (list: BadgeVec)
        ensures
            list@ == self@.line.list::<Badge, u64, Badge>("badges".spec_bytes()),
    {
        self.tag_to_attribution_vec("badges")
    }

    /// How many bits were attached to this message
    pub fn bits(&self) -> (bits: Option<ParsedTag<u64>>)
        ensures
            bits == self@.line.parsed::<u64>("bits".spec_bytes()),
    {
        self.tags().get_parsed("bits")
    }

    /// The color of the user who sent this message, if set
    pub fn color(&self) -> (color: Option<ParsedTag<Color>>)
        ensures
            color == self@.line.parsed::<Color>("color".spec_bytes()),
    {
        self.tags().get_parsed("color")
    }

    /// Returns the display name of the user, if set.
    ///
    /// Users can change the casing and encoding of their names, if they choose
    /// to.
    ///
    /// By default, their display name is not set. If the user **foo** changes
    /// their display name to **FOO** then this'll return that **FOO**.
    ///
    /// Otherwise it'll return `None`.
    pub fn display_name(&self) -> (name: Option<&str>)
        ensures
            optional_bytes(name) == self@.line.tag("display-name".spec_bytes()),
    {
        self.tags().get("display-name")
    }

    /// Emotes attached to this message
    pub fn emotes(&self) -> (list: EmoteVec)
        ensures
            list@ == self@.line.list::<usize, MsgRange, Emote>("emotes".spec_bytes()),
    {
        self.tag_to_attribution_vec("emotes")
    }

    /// Flags attached to this message
    pub fn flags(&self) -> (list: FlagVec)
        ensures
            list@ == self@.line.list::<MsgRange, Score, Flag>("flags".spec_bytes()),
    {
        self.tag_to_attribution_vec("flags")
    }

    /// The badges of the sender.
    pub open spec fn badge_views(&self) -> Seq<BadgeView> {
        self@.line.list::<Badge, u64, Badge>("badges".spec_bytes())
    }

    /// Helper function that checks if any badge fulfills a specific requirement. Intended to
    /// be used with the `Badge::is_*` functions: the answer is yes where `is_badge_fn` says
    /// yes of some badge of the sender, and no where it says no of each.
    fn any_badge<F: Fn(&Badge) -> bool>(&self, is_badge_fn: F) -> (held: bool)
        requires
            forall|badge: &Badge| is_badge_fn.requires((badge,)),
        ensures
            held ==> yes_of_some(is_badge_fn, self.badge_views()),
            !held ==> no_of_each(is_badge_fn, self.badge_views()),
    {
        let badges = self.badges();
        any_badge_of(badges.as_slice(), is_badge_fn)
    }

    /// Whether the user sending this message was a broadcaster
    pub fn is_broadcaster(&self) -> (held: bool)
        ensures
            held == any_of(self.badge_views(), |badge: BadgeView| badge is Broadcaster),
    {
        self.any_badge(Badge::is_broadcaster)
    }

    /// Whether the user sending this message was a moderator
    pub fn is_moderator(&self) -> (held: bool)
        ensures
            held == any_of(self.badge_views(), |badge: BadgeView| badge is Moderator),
    {
        self.any_badge(Badge::is_moderator)
    }

    /// Whether the user sending this message was a vip
    pub fn is_vip(&self) -> (held: bool)
        ensures
            held == any_of(self.badge_views(), |badge: BadgeView| badge is Vip),
    {
        self.any_badge(Badge::is_vip)
    }

    /// Whether the user sending this message was a subscriber
    pub fn is_subscriber(&self) -> (held: bool)
        ensures
            held == any_of(self.badge_views(), |badge: BadgeView| badge is TierSubscriber || badge is NoTierSubscriber),
    {
        self.any_badge(Badge::is_subscriber)
    }

    /// Whether the user sending this message was a staff member
    pub fn is_staff(&self) -> (held: bool)
        ensures
            held == any_of(self.badge_views(), |badge: BadgeView| badge is Staff),
    {
        self.any_badge(Badge::is_staff)
    }

    /// Whether the user sending this message had turbo
    pub fn is_turbo(&self) -> (held: bool)
        ensures
            held == any_of(self.badge_views(), |badge: BadgeView| badge is Turbo),
    {
        self.any_badge(Badge::is_turbo)
    }

    /// Whether the user sending this message was a global moderator
    pub fn is_global_moderator(&self) -> (held: bool)
        ensures
            held == any_of(self.badge_views(), |badge: BadgeView| badge is GlobalMod),
    {
        self.any_badge(Badge::is_global_mod)
    }

    /// The id of the room this message was sent to
    pub fn room_id(&self) -> (value: Option<ParsedTag<u64>>)
        ensures
            value == self@.line.parsed::<u64>("room-id".spec_bytes()),
    {
        self.tags().get_parsed("room-id")
    }

    /// The timestamp of when this message was received by Twitch
    pub fn tmi_sent_ts(&self) -> (value: Option<ParsedTag<u64>>)
        ensures
            value == self@.line.parsed::<u64>("tmi-sent-ts".spec_bytes()),
    {
        self.tags().get_parsed("tmi-sent-ts")
    }

    /// The id of the user who sent this message
    pub fn user_id(&self) -> (value: Option<ParsedTag<u64>>)
        ensures
            value == self@.line.parsed::<u64>("user-id".spec_bytes()),
    {
        self.tags().get_parsed("user-id")
    }

    /// `custom-reward-id` is returned on custom rewards set by broadcaster.
    ///
    /// **NOTE** From the new community points rewards.
    ///
    /// With no api from Twitch to retrieve proper name, looks like a UUID.
    pub fn custom_reward_id(&self) -> (value: Option<&str>)
        ensures
            optional_bytes(value) == self@.line.tag("custom-reward-id".spec_bytes()),
    {
        self.tags().get("custom-reward-id")
    }

    /// Specifies messages with a type of highlighting. Like (re)sub messages, activating host mode, or messages highlighted with channel points.
    pub fn msg_id(&self) -> (value: Option<&str>)
        ensures
            optional_bytes(value) == self@.line.tag("msg-id".spec_bytes()),
    {
        self.tags().get("msg-id")
    }
}

/// An owned copy answers as the message it was copied from: what an accessor returns is
/// told by the view alone, and `into_owned` keeps the view. So the line, each part, each tag
/// and each list read from a tag are the same for both.
pub proof fn lemma_owned_privmsg_answers_alike(msg: Privmsg, owned: Privmsg<'static>)
    requires
        owned@ == msg@,
    ensures
        owned@.line.raw == msg@.line.raw,
        owned@.name.of(owned@.line.raw) == msg@.name.of(msg@.line.raw),
        owned@.channel.of(owned@.line.raw) == msg@.channel.of(msg@.line.raw),
        owned@.data.of(owned@.line.raw) == msg@.data.of(msg@.line.raw),
        optional_of(owned@.ctcp, owned@.line.raw) == optional_of(msg@.ctcp, msg@.line.raw),
        forall|key: Seq<u8>| owned@.line.tag(key) == msg@.line.tag(key),
        forall|key: Seq<u8>| owned@.line.flag(key) == msg@.line.flag(key),
        forall|key: Seq<u8>| owned@.line.parsed::<u64>(key) == msg@.line.parsed::<u64>(key),
        forall|key: Seq<u8>| owned@.line.parsed::<Color>(key) == msg@.line.parsed::<Color>(key),
        forall|key: Seq<u8>|
            owned@.line.list::<Badge, u64, Badge>(key) == msg@.line.list::<Badge, u64, Badge>(key),
        forall|key: Seq<u8>|
            owned@.line.list::<usize, MsgRange, Emote>(key) == msg@.line.list::<usize, MsgRange, Emote>(key),
        forall|key: Seq<u8>|
            owned@.line.list::<MsgRange, Score, Flag>(key) == msg@.line.list::<MsgRange, Score, Flag>(key),
{
}

} // verus!
