//! An event that is announced in a channel, such as a subscription.

use crate::error::{MessageError, ParseError};
use crate::irc::message::{IrcMessage, MessageView};
use crate::irc::tags::{pairs_fit, parsed_view, unescape, unescaped, ParsedTag, TagIndices, Tags};
use crate::maybe_owned::{optional_bytes, optional_of, MaybeOwned, MaybeOwnedIndex};
use crate::messages::decode::FromIrcMessage;
use crate::messages::tags::{line_of, made_view, HasTags, Line};
use crate::parse::FromText;
use crate::text::{range_eq, string_bytes};
use crate::twitch::MsgRange;
use crate::twitch::attributes::{option_view, Attribution, AttributionVec};
use crate::twitch::badge::{Badge, BadgeVec};
use crate::twitch::color::Color;
use crate::twitch::emotes::{Emote, EmoteVec};
use crate::twitch::flags::{Flag, FlagVec, Score};
use vstd::prelude::*;
use vstd::string::StringSliceAdditionalSpecFns;

verus! {

/// A paid subscription to the channel
#[non_exhaustive]
#[derive(Clone, Debug, PartialEq, Eq, Hash)]
pub enum SubPlan {
    /// A `Prime` subscription
    Prime,
    /// A Tier-1 subscription (currently $4.99)
    Tier1,
    /// A Tier-2 subscription (currently $9.99)
    Tier2,
    /// A Tier-3 subscription (currently $24.99)
    Tier3,
    /// An unknown tier -- this will catch any future tiers if they are added.
    Unknown(String),
}

/// What a `SubPlan` holds.
pub enum SubPlanView {
    Prime,
    Tier1,
    Tier2,
    Tier3,
    Unknown(Seq<u8>),
}

impl View for SubPlan {
    type V = SubPlanView;

    open spec fn view(&self) -> SubPlanView {
        match self {
            SubPlan::Prime => SubPlanView::Prime,
            SubPlan::Tier1 => SubPlanView::Tier1,
            SubPlan::Tier2 => SubPlanView::Tier2,
            SubPlan::Tier3 => SubPlanView::Tier3,
            SubPlan::Unknown(text) => SubPlanView::Unknown(string_bytes(*text)),
        }
    }
}

/// The subscription plan that `text` names; a text that names none is kept as it is.
pub open spec fn sub_plan_of(text: Seq<u8>) -> SubPlanView {
    if text == "Prime".spec_bytes() {
        SubPlanView::Prime
    } else if text == "1000".spec_bytes() {
        SubPlanView::Tier1
    } else if text == "2000".spec_bytes() {
        SubPlanView::Tier2
    } else if text == "3000".spec_bytes() {
        SubPlanView::Tier3
    } else {
        SubPlanView::Unknown(text)
    }
}

impl SubPlan {
    /// Decodes the subscription plan that `s` names. Every text is one: see `sub_plan_of`.
    pub fn from_str(s: &str) -> (made: SubPlan)
        ensures
            made@ == sub_plan_of(s.spec_bytes()),
    {
        let bytes = s.as_bytes();
        let len = bytes.len();
        assert(bytes@.subrange(0, len as int) =~= bytes@);
        if range_eq(bytes, 0, len, "Prime".as_bytes()) {
            SubPlan::Prime
        } else if range_eq(bytes, 0, len, "1000".as_bytes()) {
            SubPlan::Tier1
        } else if range_eq(bytes, 0, len, "2000".as_bytes()) {
            SubPlan::Tier2
        } else if range_eq(bytes, 0, len, "3000".as_bytes()) {
            SubPlan::Tier3
        } else {
            SubPlan::Unknown(s.to_owned())
        }
    }
}

impl FromText for SubPlan {
    open spec fn decoded(text: Seq<u8>) -> Result<SubPlanView, ParseError> {
        Ok(sub_plan_of(text))
    }

    fn from_text(text: &str) -> (r: Result<SubPlan, ParseError>) {
        Ok(SubPlan::from_str(text))
    }
}

/// The kind of notice it was, retrieved via [UserNotice::msg_id()]
#[non_exhaustive]
#[derive(Clone, Debug, PartialEq, Eq, Hash)]
pub enum NoticeType {
    /// This was a subscription notice
    Sub,
    /// This was a re-subscription notice
    Resub,
    /// This was a gifted subscription
    SubGift,
    /// This was an anonymous gifted subscription
    AnonSubGift,
    /// This was a mystery gift for the subscription
    SubMysteryGift,
    /// Gift for a paid upgrade
    GiftPaidUpgrade,
    /// A reward gift
    RewardGift,
    /// An anonymous gift for paid upgrade
    AnonGiftPaidUpgrade,
    /// A raid
    Raid,
    /// A canceled raid
    Unraid,
    /// A ritual
    Ritual,
    /// The tier that the bits were part of
    BitsBadgeTier,
    /// An unknown notice type (a catch-all)
    Unknown(String),
}

/// What a `NoticeType` holds.
pub enum NoticeTypeView {
    Sub,
    Resub,
    SubGift,
    AnonSubGift,
    SubMysteryGift,
    GiftPaidUpgrade,
    RewardGift,
    AnonGiftPaidUpgrade,
    Raid,
    Unraid,
    Ritual,
    BitsBadgeTier,
    Unknown(Seq<u8>),
}

impl View for NoticeType {
    type V = NoticeTypeView;

    open spec fn view(&self) -> NoticeTypeView {
        match self {
            NoticeType::Sub => NoticeTypeView::Sub,
            NoticeType::Resub => NoticeTypeView::Resub,
            NoticeType::SubGift => NoticeTypeView::SubGift,
            NoticeType::AnonSubGift => NoticeTypeView::AnonSubGift,
            NoticeType::SubMysteryGift => NoticeTypeView::SubMysteryGift,
            NoticeType::GiftPaidUpgrade => NoticeTypeView::GiftPaidUpgrade,
            NoticeType::RewardGift => NoticeTypeView::RewardGift,
            NoticeType::AnonGiftPaidUpgrade => NoticeTypeView::AnonGiftPaidUpgrade,
            NoticeType::Raid => NoticeTypeView::Raid,
            NoticeType::Unraid => NoticeTypeView::Unraid,
            NoticeType::Ritual => NoticeTypeView::Ritual,
            NoticeType::BitsBadgeTier => NoticeTypeView::BitsBadgeTier,
            NoticeType::Unknown(text) => NoticeTypeView::Unknown(string_bytes(*text)),
        }
    }
}

/// The kind of notice that `text` names; a text that names none is kept as it is.
pub open spec fn notice_type_of(text: Seq<u8>) -> NoticeTypeView {
    if text == "sub".spec_bytes() {
        NoticeTypeView::Sub
    } else if text == "resub".spec_bytes() {
        NoticeTypeView::Resub
    } else if text == "subgift".spec_bytes() {
        NoticeTypeView::SubGift
    } else if text == "anonsubgift".spec_bytes() {
        NoticeTypeView::AnonSubGift
    } else if text == "submysterygift".spec_bytes() {
        NoticeTypeView::SubMysteryGift
    } else if text == "giftpaidupgrade".spec_bytes() {
        NoticeTypeView::GiftPaidUpgrade
    } else if text == "rewardgift".spec_bytes() {
        NoticeTypeView::RewardGift
    } else if text == "anongiftpaidupgrade".spec_bytes() {
        NoticeTypeView::AnonGiftPaidUpgrade
    } else if text == "raid".spec_bytes() {
        NoticeTypeView::Raid
    } else if text == "unraid".spec_bytes() {
        NoticeTypeView::Unraid
    } else if text == "ritual".spec_bytes() {
        NoticeTypeView::Ritual
    } else if text == "bitsbadgetier".spec_bytes() {
        NoticeTypeView::BitsBadgeTier
    } else {
        NoticeTypeView::Unknown(text)
    }
}

impl NoticeType {
    /// Decodes the kind of notice that `s` names. Every text is one: see `notice_type_of`.
    pub fn from_str(s: &str) -> (made: NoticeType)
        ensures
            made@ == notice_type_of(s.spec_bytes()),
    {
        let bytes = s.as_bytes();
        let len = bytes.len();
        assert(bytes@.subrange(0, len as int) =~= bytes@);
        if range_eq(bytes, 0, len, "sub".as_bytes()) {
            NoticeType::Sub
        } else if range_eq(bytes, 0, len, "resub".as_bytes()) {
            NoticeType::Resub
        } else if range_eq(bytes, 0, len, "subgift".as_bytes()) {
            NoticeType::SubGift
        } else if range_eq(bytes, 0, len, "anonsubgift".as_bytes()) {
            NoticeType::AnonSubGift
        } else if range_eq(bytes, 0, len, "submysterygift".as_bytes()) {
            NoticeType::SubMysteryGift
        } else if range_eq(bytes, 0, len, "giftpaidupgrade".as_bytes()) {
            NoticeType::GiftPaidUpgrade
        } else if range_eq(bytes, 0, len, "rewardgift".as_bytes()) {
            NoticeType::RewardGift
        } else if range_eq(bytes, 0, len, "anongiftpaidupgrade".as_bytes()) {
            NoticeType::AnonGiftPaidUpgrade
        } else if range_eq(bytes, 0, len, "raid".as_bytes()) {
            NoticeType::Raid
        } else if range_eq(bytes, 0, len, "unraid".as_bytes()) {
            NoticeType::Unraid
        } else if range_eq(bytes, 0, len, "ritual".as_bytes()) {
            NoticeType::Ritual
        } else if range_eq(bytes, 0, len, "bitsbadgetier".as_bytes()) {
            NoticeType::BitsBadgeTier
        } else {
            NoticeType::Unknown(s.to_owned())
        }
    }
}

impl FromText for NoticeType {
    open spec fn decoded(text: Seq<u8>) -> Result<NoticeTypeView, ParseError> {
        Ok(notice_type_of(text))
    }

    fn from_text(text: &str) -> (r: Result<NoticeType, ParseError>) {
        Ok(NoticeType::from_str(text))
    }
}

/// Announces Twitch-specific events to the channel (e.g., a user's subscription notification).
#[derive(Debug, PartialEq)]
pub struct UserNotice<'a> {
    raw: MaybeOwned<'a>,
    tags: TagIndices,
    channel: MaybeOwnedIndex,
    message: Option<MaybeOwnedIndex>,
}

/// What a `UserNotice` holds: its line and the ranges of its parts.
pub struct UserNoticeView {
    /// The line and the index of its tags.
    pub line: Line,
    /// The channel.
    pub channel: MaybeOwnedIndex,
    /// The message that comes with the event, if there is one.
    pub message: Option<MaybeOwnedIndex>,
}

impl<'a> View for UserNotice<'a> {
    type V = UserNoticeView;

    closed spec fn view(&self) -> UserNoticeView {
        UserNoticeView {
            line: Line { raw: self.raw.bytes(), tags: self.tags@ },
            channel: self.channel,
            message: self.message,
        }
    }
}

/// The `UserNotice` that a line holds: its command is `USERNOTICE`, its first parameter is
/// the channel, and its trailing data, if it has any, is the message.
pub open spec fn user_notice_of(msg: MessageView) -> Result<UserNoticeView, MessageError> {
    if msg.command.of(msg.raw) != "USERNOTICE".spec_bytes() {
        Err(MessageError::InvalidCommand)
    } else {
        match msg.arg(0) {
            None => Err(MessageError::ExpectedArg { pos: 0 }),
            Some(channel) => Ok(
                UserNoticeView { line: line_of(msg), channel, message: msg.data },
            ),
        }
    }
}

impl<'a> Clone for UserNotice<'a> {
    fn clone(&self) -> (copy: Self)
        ensures
            copy@ == self@,
            copy.owns_text() == self.owns_text(),
    {
        proof {
            use_type_invariant(self);
        }
        UserNotice {
            raw: self.raw.clone(),
            tags: self.tags.clone(),
            channel: self.channel,
            message: self.message,
        }
    }
}

impl<'a> HasTags<'a> for UserNotice<'a> {
    open spec fn line(&self) -> Line {
        self@.line
    }

    /// The tags of the message.
    fn tags(&'a self) -> (tags: Tags<'a>)
        ensures
            tags.bytes() == self@.line.raw,
            tags.pairs() == self@.line.tags,
    {
        proof {
            use_type_invariant(self);
        }
        Tags::new(self.raw.as_str(), &self.tags)
    }
}

impl<'a> FromIrcMessage<'a> for UserNotice<'a> {
    open spec fn made_of(msg: MessageView) -> Result<UserNoticeView, MessageError> {
        user_notice_of(msg)
    }

    /// Makes a `UserNotice` of a line: see `user_notice_of`.
    fn from_irc(msg: IrcMessage<'a>) -> (r: Result<UserNotice<'a>, MessageError>)
        ensures
            made_view(r) == user_notice_of(msg@),
    {
        msg.expect_command(IrcMessage::USER_NOTICE)?;
        let channel = msg.expect_arg_index(0)?;
        let message = msg.get_data_index();
        let tags = msg.parse_tags();
        Ok(UserNotice { channel, message, tags, raw: msg.into_inner() })
    }

    /// Hands out the line that the message was made of.
    fn into_inner(self) -> (text: MaybeOwned<'a>)
        ensures
            text.bytes() == self@.line.raw,
            text is Owned == self.owns_text(),
    {
        self.raw
    }
}

impl<'a> UserNotice<'a> {
    /// Every range lies within the line, on character boundaries.
    #[verifier::type_invariant]
    pub closed spec fn well_formed(&self) -> bool {
        &&& pairs_fit(self.raw.bytes(), self.tags@)
        &&& self.channel.fits(self.raw.bytes())
        &&& self.message matches Some(message) ==> message.fits(self.raw.bytes())
    }

    /// The line that this message was made of.
    pub fn raw(&self) -> (text: &str)
        ensures
            text.spec_bytes() == self@.line.raw,
    {
        self.raw.as_str()
    }

    /// Whether the message owns its text: then it holds bytes of its own and outlives the
    /// input that it was made of.
    pub closed spec fn owns_text(&self) -> bool {
        self.raw is Owned
    }

    /// The same message over an owned copy of its line: the copy holds bytes of its own, and
    /// every range into the line is a range into the copy.
    pub fn into_owned(self) -> (owned: UserNotice<'static>)
        ensures
            owned@ == self@,
            owned.owns_text(),
    {
        proof {
            use_type_invariant(&self);
        }
        let UserNotice { raw, tags, channel, message } = self;
        UserNotice { raw: raw.into_owned(), tags, channel, message }
    }

    /// The channel that this event is happening on
    pub fn channel(&self) -> (text: &str)
        ensures
            text.spec_bytes() == self@.channel.of(self@.line.raw),
    {
        proof {
            use_type_invariant(self);
        }
        self.raw.slice(self.channel)
    }

    /// Optional message attached to the event
    pub fn message(&self) -> (text: Option<&str>)
        ensures
            optional_bytes(text) == optional_of(self@.message, self@.line.raw),
    {
        proof {
            use_type_invariant(self);
        }
        match self.message {
            Some(index) => Some(self.raw.slice(index)),
            None => None,
        }
    }

    /// Helper function to return information that can be parsed as AttributionVec.
    fn tag_to_attribution_vec<Ref: FromText, Attr: FromText, T: Attribution<Ref, Attr>>(
        &self,
        tag: &str,
    ) -> (list: AttributionVec<Ref, Attr, T>)
        ensures
            list@ == self@.line.list::<Ref, Attr, T>(tag.spec_bytes()),
    {
        self.tags().get_list(tag)
    }

    /// Metadata related to the chat badges
    ///
    /// Currently used only for `subscriber`, to indicate the exact number of months the user has been a subscriber
    pub fn badge_info(&self) -> (list: BadgeVec)
        ensures
            list@ == self@.line.list::<Badge, u64, Badge>("badge-info".spec_bytes()),
    {
        self.tag_to_attribution_vec("badge-info")
    }

    /// Badges attached to this message
    pub fn badges(&self) -> (list: BadgeVec)
        ensures
            list@ == self@.line.list::<Badge, u64, Badge>("badges".spec_bytes()),
    {
        self.tag_to_attribution_vec("badges")
    }

    /// The user's color, if set
    pub fn color(&self) -> (value: Option<ParsedTag<Color>>)
        ensures
            value == self@.line.parsed::<Color>("color".spec_bytes()),
    {
        self.tags().get_parsed("color")
    }

    /// The user's display name, if set
    pub fn display_name(&self) -> (value: Option<&str>)
        ensures
            optional_bytes(value) == self@.line.tag("display-name".spec_bytes()),
    {
        self.tags().get("display-name")
    }

    /// Emotes attached to this message
    pub fn emotes(&self) -> (list: EmoteVec)
        ensures
            list@ == self@.line.list::<usize, MsgRange, Emote>("emotes".spec_bytes()),
    {
        self.tag_to_attribution_vec("emotes")
    }

    /// Flags attached to this message
    pub fn flags(&self) -> (list: FlagVec)
        ensures
            list@ == self@.line.list::<MsgRange, Score, Flag>("flags".spec_bytes()),
    {
        self.tag_to_attribution_vec("flags")
    }

    /// A unique id (UUID) attached to this message
    ///
    /// (this is used for message localization)
    pub fn id(&self) -> (value: Option<&str>)
        ensures
            optional_bytes(value) == self@.line.tag("id".spec_bytes()),
    {
        self.tags().get("id")
    }

    /// The name of the user who sent this notice
    pub fn login(&self) -> (value: Option<&str>)
        ensures
            optional_bytes(value) == self@.line.tag("login".spec_bytes()),
    {
        self.tags().get("login")
    }

    /// Whether this user is a moderator
    pub fn is_moderator(&self) -> (held: bool)
        ensures
            held == self@.line.flag("mod".spec_bytes()),
    {
        self.tags().get_as_bool("mod")
    }

    /// The kind of notice this message is
    pub fn msg_id(&self) -> (kind: Option<ParsedTag<NoticeType>>)
        ensures
            parsed_view(kind) == self@.line.parsed::<NoticeType>("msg-id".spec_bytes()),
    {
        self.tags().get_parsed("msg-id")
    }

    /// The id of the room for this notice
    pub fn room_id(&self) -> (value: Option<ParsedTag<u64>>)
        ensures
            value == self@.line.parsed::<u64>("room-id".spec_bytes()),
    {
        self.tags().get_parsed("room-id")
    }

    /// The timestamp which twitch received this message
    pub fn tmi_sent_ts(&self) -> (value: Option<ParsedTag<u64>>)
        ensures
            value == self@.line.parsed::<u64>("tmi-sent-ts".spec_bytes()),
    {
        self.tags().get_parsed("tmi-sent-ts")
    }

    /// User id of the user who sent this notice
    pub fn user_id(&self) -> (value: Option<ParsedTag<u64>>)
        ensures
            value == self@.line.parsed::<u64>("user-id".spec_bytes()),
    {
        self.tags().get_parsed("user-id")
    }

    /// The message printed in chat along with this notice, with its escapes replaced by what
    /// they stand for
    pub fn system_msg(&self) -> (text: Option<String>)
        ensures
            match text {
                Some(text) => self@.line.tag("system-msg".spec_bytes()) matches Some(value)
                    && string_bytes(text) == unescaped(value),
                None => self@.line.tag("system-msg".spec_bytes()) is None,
            },
    {
        match self.tags().get("system-msg") {
            Some(value) => Some(unescape(value)),
            None => None,
        }
    }

    /// (Sent only on sub, resub) The total number of months the user has
    /// subscribed.
    ///
    /// This is the same as msg-param-months but sent for different
    /// types of user notices.
    pub fn msg_param_cumulative_months(&self) -> (value: Option<ParsedTag<u64>>)
        ensures
            value == self@.line.parsed::<u64>("msg-param-cumulative-months".spec_bytes()),
    {
        self.tags().get_parsed("msg-param-cumulative-months")
    }

    /// (Sent only on raid) The display name of the source user raiding this
    /// channel.
    pub fn msg_param_display_name(&self) -> (value: Option<&str>)
        ensures
            optional_bytes(value) == self@.line.tag("msg-param-displayName".spec_bytes()),
    {
        self.tags().get("msg-param-displayName")
    }

    /// (Sent on only raid) The name of the source user raiding this channel.
    pub fn msg_param_login(&self) -> (value: Option<&str>)
        ensures
            optional_bytes(value) == self@.line.tag("msg-param-login".spec_bytes()),
    {
        self.tags().get("msg-param-login")
    }

    /// (Sent only on subgift, anonsubgift) The total number of months the user
    /// has subscribed.
    ///
    /// This is the same as msg-param-cumulative-months but sent
    /// for different types of user notices.
    pub fn msg_param_months(&self) -> (value: Option<ParsedTag<u64>>)
        ensures
            value == self@.line.parsed::<u64>("msg-param-months".spec_bytes()),
    {
        self.tags().get_parsed("msg-param-months")
    }

    /// (Sent only on anongiftpaidupgrade, giftpaidupgrade) The number of gifts
    /// the gifter has given during the promo indicated by msg-param-promo-name.
    pub fn msg_param_promo_gift_total(&self) -> (value: Option<ParsedTag<u64>>)
        ensures
            value == self@.line.parsed::<u64>("msg-param-promo-gift-total".spec_bytes()),
    {
        self.tags().get_parsed("msg-param-promo-gift-total")
    }

    /// (Sent only on anongiftpaidupgrade, giftpaidupgrade) The subscriptions
    /// promo, if any, that is ongoing; e.g. Subtember 2018.
    pub fn msg_param_promo_name(&self) -> (value: Option<&str>)
        ensures
            optional_bytes(value) == self@.line.tag("msg-param-promo-name".spec_bytes()),
    {
        self.tags().get("msg-param-promo-name")
    }

    /// (Sent only on subgift, anonsubgift) The display name of the subscription
    /// gift recipient.
    pub fn msg_param_recipient_display_name(&self) -> (value: Option<&str>)
        ensures
            optional_bytes(value) == self@.line.tag("msg-param-recipient-display-name".spec_bytes()),
    {
        self.tags().get("msg-param-recipient-display-name")
    }

    /// (Sent only on subgift, anonsubgift) The user ID of the subscription gift
    /// recipient.
    pub fn msg_param_recipient_id(&self) -> (value: Option<ParsedTag<u64>>)
        ensures
            value == self@.line.parsed::<u64>("msg-param-recipient-id".spec_bytes()),
    {
        self.tags().get_parsed("msg-param-recipient-id")
    }

    /// (Sent only on subgift, anonsubgift) The user name of the subscription
    /// gift recipient.
    pub fn msg_param_recipient_user_name(&self) -> (value: Option<&str>)
        ensures
            optional_bytes(value) == self@.line.tag("msg-param-recipient-user-name".spec_bytes()),
    {
        self.tags().get("msg-param-recipient-user-name")
    }

    /// (Sent only on giftpaidupgrade) The login of the user who gifted the
    /// subscription.
    pub fn msg_param_sender_login(&self) -> (value: Option<&str>)
        ensures
            optional_bytes(value) == self@.line.tag("msg-param-sender-login".spec_bytes()),
    {
        self.tags().get("msg-param-sender-login")
    }

    /// (Sent only on giftpaidupgrade) The display name of the user who gifted
    /// the subscription.
    pub fn msg_param_sender_name(&self) -> (value: Option<&str>)
        ensures
            optional_bytes(value) == self@.line.tag("msg-param-sender-name".spec_bytes()),
    {
        self.tags().get("msg-param-sender-name")
    }

    /// (Sent only on sub, resub) Boolean indicating whether users want their
    /// streaks to be shared.
    pub fn msg_param_should_share_streak(&self) -> (value: Option<ParsedTag<bool>>)
        ensures
            value == self@.line.parsed::<bool>("msg-param-should-share-streak".spec_bytes()),
    {
        self.tags().get_parsed("msg-param-should-share-streak")
    }

    /// (Sent only on sub, resub) The number of consecutive months the user has
    /// subscribed.
    ///
    /// This is 0 if msg-param-should-share-streak is 0.
    pub fn msg_param_streak_months(&self) -> (value: Option<ParsedTag<u64>>)
        ensures
            value == self@.line.parsed::<u64>("msg-param-streak-months".spec_bytes()),
    {
        self.tags().get_parsed("msg-param-streak-months")
    }

    /// (Sent only on sub, resub, subgift, anonsubgift) The type of subscription
    /// plan being used.
    ///
    /// Valid values: Prime, 1000, 2000, 3000. 1000, 2000, and
    /// 3000 refer to the first, second, and third levels of paid subscriptions,
    /// respectively (currently $4.99, $9.99, and $24.99).
    pub fn msg_param_sub_plan(&self) -> (plan: Option<SubPlan>)
        ensures
            option_view(plan) == match self@.line.tag("msg-param-sub-plan".spec_bytes()) {
                Some(value) => Some(sub_plan_of(value)),
                None => None,
            },
    {
        match self.tags().get("msg-param-sub-plan") {
            Some(value) => Some(SubPlan::from_str(value)),
            None => None,
        }
    }

    /// (Sent only on sub, resub, subgift, anonsubgift) The display name of the
    /// subscription plan.
    ///
    /// This may be a default name or one created by the
    /// channel owner.
    pub fn msg_param_sub_plan_name(&self) -> (value: Option<&str>)
        ensures
            optional_bytes(value) == self@.line.tag("msg-param-sub-plan-name".spec_bytes()),
    {
        self.tags().get("msg-param-sub-plan-name")
    }

    /// (Sent only on raid) The number of viewers watching the source channel
    /// raiding this channel.
    pub fn msg_param_viewer_count(&self) -> (value: Option<ParsedTag<u64>>)
        ensures
            value == self@.line.parsed::<u64>("msg-param-viewerCount".spec_bytes()),
    {
        self.tags().get_parsed("msg-param-viewerCount")
    }

    /// (Sent only on ritual) The name of the ritual this notice is for. Valid
    /// value: new_chatter.
    pub fn msg_param_ritual_name(&self) -> (value: Option<&str>)
        ensures
            optional_bytes(value) == self@.line.tag("msg-param-ritual-name".spec_bytes()),
    {
        self.tags().get("msg-param-ritual-name")
    }

    /// (Sent only on bitsbadgetier) The tier of the bits badge the user just
    /// earned; e.g. 100, 1000, 10000.
    pub fn msg_param_threshold(&self) -> (value: Option<ParsedTag<u64>>)
        ensures
            value == self@.line.parsed::<u64>("msg-param-threshold".spec_bytes()),
    {
        self.tags().get_parsed("msg-param-threshold")
    }
}

/// An owned copy answers as the message it was copied from: what an accessor returns is
/// told by the view alone, and `into_owned` keeps the view. So the line, each part, each tag
/// and each list read from a tag are the same for both.
pub proof fn lemma_owned_user_notice_answers_alike(msg: UserNotice, owned: UserNotice<'static>)
    requires
        owned@ == msg@,
    ensures
        owned@.line.raw == msg@.line.raw,
        owned@.channel.of(owned@.line.raw) == msg@.channel.of(msg@.line.raw),
        optional_of(owned@.message, owned@.line.raw) == optional_of(msg@.message, msg@.line.raw),
        forall|key: Seq<u8>| owned@.line.tag(key) == msg@.line.tag(key),
        forall|key: Seq<u8>| owned@.line.flag(key) == msg@.line.flag(key),
        forall|key: Seq<u8>| owned@.line.parsed::<u64>(key) == msg@.line.parsed::<u64>(key),
        forall|key: Seq<u8>| owned@.line.parsed::<bool>(key) == msg@.line.parsed::<bool>(key),
        forall|key: Seq<u8>| owned@.line.parsed::<Color>(key) == msg@.line.parsed::<Color>(key),
        forall|key: Seq<u8>| owned@.line.parsed::<NoticeType>(key) == msg@.line.parsed::<NoticeType>(key),
        forall|key: Seq<u8>|
            owned@.line.list::<Badge, u64, Badge>(key) == msg@.line.list::<Badge, u64, Badge>(key),
        forall|key: Seq<u8>|
            owned@.line.list::<usize, MsgRange, Emote>(key) == msg@.line.list::<usize, MsgRange, Emote>(key),
        forall|key: Seq<u8>|
            owned@.line.list::<MsgRange, Score, Flag>(key) == msg@.line.list::<MsgRange, Score, Flag>(key),
{
}

} // verus!
