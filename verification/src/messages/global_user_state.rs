//! The settings of the logged-in user, sent once after login.

use crate::ascii::COMMA;
use crate::error::MessageError;
use crate::irc::message::{IrcMessage, MessageView};
use crate::irc::tags::{pairs_fit, ParsedTag, TagIndices, Tags};
use crate::maybe_owned::{optional_bytes, MaybeOwned};
use crate::messages::decode::FromIrcMessage;
use crate::messages::tags::{line_of, made_view, HasTags, Line};
use crate::parse::FromText;
use crate::text::{pieces, split_all, texts_bytes};
use crate::twitch::attributes::{Attribution, AttributionVec};
use crate::twitch::badge::{Badge, BadgeVec};
use crate::twitch::color::{parse_color, white, Color};
use vstd::prelude::*;
use vstd::string::StringSliceAdditionalSpecFns;

verus! {

/// Sent on successful login, if both **TAGS** and **COMMANDS** capabilities have been sent beforehand.
///
/// # NOTE:
///
/// This message can arrive without any tags attached.
///
/// If only **COMMANDS** and **MEMBERSHIP** are sent, you'll get this message,
/// but it'll be empty (read: default). You should check the [GlobalUserState::has_tags()] to
/// verify that you actually got the real message
#[derive(Debug, PartialEq)]
pub struct GlobalUserState<'a> {
    raw: MaybeOwned<'a>,
    tags: TagIndices,
    user_id: Option<MaybeOwned<'a>>,
    display_name: Option<MaybeOwned<'a>>,
    color: Color,
}

/// What a `GlobalUserState` holds: its line, and what was read from its tags when it was made.
pub struct GlobalUserStateView {
    /// The line and the index of its tags.
    pub line: Line,
    /// The id of the user, if the tags hold it.
    pub user_id: Option<Seq<u8>>,
    /// The display name of the user, if the tags hold it.
    pub display_name: Option<Seq<u8>>,
    /// The color of the user; white where the tags hold none.
    pub color: Color,
}

/// The bytes of an optional text.
pub open spec fn optional_text(text: Option<MaybeOwned>) -> Option<Seq<u8>> {
    match text {
        Some(text) => Some(text.bytes()),
        None => None,
    }
}

impl<'a> View for GlobalUserState<'a> {
    type V = GlobalUserStateView;

    closed spec fn view(&self) -> GlobalUserStateView {
        GlobalUserStateView {
            line: Line { raw: self.raw.bytes(), tags: self.tags@ },
            user_id: optional_text(self.user_id),
            display_name: optional_text(self.display_name),
            color: self.color,
        }
    }
}

/// The color that the value of the `color` tag denotes: the color that it names, and white
/// where the tag is missing, empty, or names no color.
pub open spec fn color_of(value: Option<Seq<u8>>) -> Color {
    match value {
        Some(value) => match parse_color(value) {
            Ok(color) => color,
            Err(_) => white(),
        },
        None => white(),
    }
}

/// The `GlobalUserState` that a line holds: its command is `GLOBALUSERSTATE`. Nothing else is
/// asked of it, not even tags; a `color` tag that names no color leaves the color white.
pub open spec fn global_user_state_of(msg: MessageView) -> Result<
    GlobalUserStateView,
    MessageError,
> {
    let line = line_of(msg);
    if msg.command.of(msg.raw) != "GLOBALUSERSTATE".spec_bytes() {
        Err(MessageError::InvalidCommand)
    } else {
        Ok(
            GlobalUserStateView {
                line,
                user_id: line.tag("user-id".spec_bytes()),
                display_name: line.tag("display-name".spec_bytes()),
                color: color_of(line.tag("color".spec_bytes())),
            },
        )
    }
}

/// An owned copy of an optional text.
fn owned_copy<'a>(text: Option<&str>) -> (copy: Option<MaybeOwned<'a>>)
    ensures
        optional_text(copy) == optional_bytes(text),
{
    match text {
        Some(text) => Some(MaybeOwned::Owned(text.to_owned())),
        None => None,
    }
}

/// The text as it stands, if there is one.
fn as_text<'b>(text: &'b Option<MaybeOwned<'_>>) -> (out: Option<&'b str>)
    ensures
        optional_bytes(out) == optional_text(*text),
{
    match text {
        Some(text) => Some(text.as_str()),
        None => None,
    }
}

/// The color that the value of the `color` tag denotes: see `color_of`.
fn read_color(value: Option<&str>) -> (color: Color)
    ensures
        color == color_of(optional_bytes(value)),
{
    match value {
        Some(value) => match Color::from_str(value) {
            Ok(color) => color,
            Err(_) => Color::default(),
        },
        None => Color::default(),
    }
}

/// A copy of an optional text.
fn copy_text<'a>(text: &Option<MaybeOwned<'a>>) -> (copy: Option<MaybeOwned<'a>>)
    ensures
        optional_text(copy) == optional_text(*text),
        copy is Some == text is Some,
        copy matches Some(copy) ==> (copy is Owned) == (text->0 is Owned),
{
    match text {
        Some(text) => Some(text.clone()),
        None => None,
    }
}

impl<'a> Clone for GlobalUserState<'a> {
    fn clone(&self) -> (copy: Self)
        ensures
            copy@ == self@,
            copy.owns_text() == self.owns_text(),
    {
        proof {
            use_type_invariant(self);
        }
        GlobalUserState {
            raw: self.raw.clone(),
            tags: self.tags.clone(),
            user_id: copy_text(&self.user_id),
            display_name: copy_text(&self.display_name),
            color: self.color,
        }
    }
}

impl<'a> HasTags<'a> for GlobalUserState<'a> {
    open spec fn line(&self) -> Line {
        self@.line
    }

    /// The tags of the message.
    fn tags(&'a self) -> (tags: Tags<'a>)
        ensures
            tags.bytes() == self@.line.raw,
            tags.pairs() == self@.line.tags,
    {
        proof {
            use_type_invariant(self);
        }
        Tags::new(self.raw.as_str(), &self.tags)
    }
}

impl<'a> FromIrcMessage<'a> for GlobalUserState<'a> {
    open spec fn made_of(msg: MessageView) -> Result<GlobalUserStateView, MessageError> {
        global_user_state_of(msg)
    }

    /// Makes a `GlobalUserState` of a line: see `global_user_state_of`.
    fn from_irc(msg: IrcMessage<'a>) -> (r: Result<GlobalUserState<'a>, MessageError>)
        ensures
            made_view(r) == global_user_state_of(msg@),
    {
        msg.expect_command(IrcMessage::GLOBAL_USER_STATE)?;
        let tag_index = msg.parse_tags();
        let tags = Tags::new(msg.get_raw(), &tag_index);
        let user_id = owned_copy(tags.get("user-id"));
        let display_name = owned_copy(tags.get("display-name"));
        let color = read_color(tags.get("color"));
        Ok(GlobalUserState { user_id, display_name, color, tags: tag_index, raw: msg.into_inner() })
    }

    /// Hands out the line that the message was made of.
    fn into_inner(self) -> (text: MaybeOwned<'a>)
        ensures
            text.bytes() == self@.line.raw,
            self.owns_text() ==> text is Owned,
    {
        self.raw
    }
}

impl<'a> GlobalUserState<'a> {
    /// Every range lies within the line, on character boundaries.
    #[verifier::type_invariant]
    pub closed spec fn well_formed(&self) -> bool {
        pairs_fit(self.raw.bytes(), self.tags@)
    }

    /// The line that this message was made of.
    pub fn raw(&self) -> (text: &str)
        ensures
            text.spec_bytes() == self@.line.raw,
    {
        self.raw.as_str()
    }

    /// Whether the message owns its text, the line and what was read from it: then it holds
    /// bytes of its own and outlives the input that it was made of.
    pub closed spec fn owns_text(&self) -> bool {
        &&& self.raw is Owned
        &&& self.user_id matches Some(text) ==> text is Owned
        &&& self.display_name matches Some(text) ==> text is Owned
    }

    /// The same message over an owned copy of its line: the copy holds bytes of its own, and
    /// every range into the line is a range into the copy.
    pub fn into_owned(self) -> (owned: GlobalUserState<'static>)
        ensures
            owned@ == self@,
            owned.owns_text(),
    {
        proof {
            use_type_invariant(&self);
        }
        let GlobalUserState { raw, tags, user_id, display_name, color } = self;
        let user_id = match user_id {
            Some(text) => Some(text.into_owned()),
            None => None,
        };
        let display_name = match display_name {
            Some(text) => Some(text.into_owned()),
            None => None,
        };
        GlobalUserState { raw: raw.into_owned(), tags, user_id, display_name, color }
    }

    /// Determines whether this message actually had tags attached
    pub fn has_tags(&self) -> (held: bool)
        ensures
            held == (self@.line.tags.len() > 0),
    {
        !self.tags.is_empty()
    }

    /// Your available emote sets, always contains at least '0'
    pub fn emote_sets(&self) -> (sets: Vec<&str>)
        ensures
            texts_bytes(sets@) == match self@.line.tag("emote-sets".spec_bytes()) {
                Some(value) => pieces(value, COMMA),
                None => seq!["0".spec_bytes()],
            },
    {
        match self.tags().get("emote-sets") {
            Some(value) => split_all(value, COMMA),
            None => {
                let sets = vec!["0"];
                assert(texts_bytes(sets@) =~= seq!["0".spec_bytes()]);
                sets
            },
        }
    }

    /// Helper function to return information that can be parsed as AttributionVec.
    fn tag_to_attribution_vec<Ref: FromText, Attr: FromText, T: Attribution<Ref, Attr>>(
        &self,
        tag: &str,
    ) -> (list: AttributionVec<Ref, Attr, T>)
        ensures
            list@ == self@.line.list::<Ref, Attr, T>(tag.spec_bytes()),
    {
        self.tags().get_list(tag)
    }

    /// Any badges you have
    pub fn badges(&self) -> (list: BadgeVec)
        ensures
            list@ == self@.line.list::<Badge, u64, Badge>("badges".spec_bytes()),
    {
        self.tag_to_attribution_vec("badges")
    }

    /// Your user-id -- only available if you have TAGs enabled
    pub fn user_id(&self) -> (id: Option<&str>)
        ensures
            optional_bytes(id) == self@.user_id,
    {
        as_text(&self.user_id)
    }

    /// Your display name, if set
    pub fn display_name(&self) -> (name: Option<&str>)
        ensures
            optional_bytes(name) == self@.display_name,
    {
        as_text(&self.display_name)
    }

    /// Your color, if set. Defaults to `white`
    pub fn color(&self) -> (color: Color)
        ensures
            color == self@.color,
    {
        self.color
    }

    /// The `color` tag as it was sent: nothing where the line has none, else the color or the
    /// reason why its text names none.
    pub fn parsed_color(&self) -> (color: Option<ParsedTag<Color>>)
        ensures
            color == self@.line.parsed::<Color>("color".spec_bytes()),
    {
        self.tags().get_parsed("color")
    }
}

/// Every line whose command is `GLOBALUSERSTATE` makes a message, whatever its tags hold.
pub proof fn lemma_every_line_makes_a_message(msg: MessageView)
    requires
        msg.command.of(msg.raw) == "GLOBALUSERSTATE".spec_bytes(),
    ensures
        global_user_state_of(msg) is Ok,
{
}

/// A line without tags gives a message without tags: no id and no display name, the color
/// white, and no emote set but the one that `emote_sets` then names, `0`.
pub proof fn lemma_without_tags(msg: MessageView)
    requires
        msg.tags is None,
        msg.command.of(msg.raw) == "GLOBALUSERSTATE".spec_bytes(),
    ensures
        global_user_state_of(msg) matches Ok(state) && state.line.tags.len() == 0
            && state.user_id is None && state.display_name is None && state.color == white()
            && state.line.tag("emote-sets".spec_bytes()) is None,
{
}

/// An owned copy answers as the message it was copied from: what an accessor returns is
/// told by the view alone, and `into_owned` keeps the view. So the line, the values read
/// when the message was made, each tag and each list read from a tag are the same for both.
pub proof fn lemma_owned_global_user_state_answers_alike(
    msg: GlobalUserState,
    owned: GlobalUserState<'static>,
)
    requires
        owned@ == msg@,
    ensures
        owned@.line.raw == msg@.line.raw,
        owned@.user_id == msg@.user_id,
        owned@.display_name == msg@.display_name,
        owned@.color == msg@.color,
        (owned@.line.tags.len() > 0) == (msg@.line.tags.len() > 0),
        forall|key: Seq<u8>| owned@.line.tag(key) == msg@.line.tag(key),
        forall|key: Seq<u8>|
            owned@.line.list::<Badge, u64, Badge>(key) == msg@.line.list::<Badge, u64, Badge>(key),
{
}

} // verus!
