//! Badges: the credentials that stand beside a user's name.
//!
//! A tag lists them as `name/number,name/number`. A badge is split at its first `/` into a name
//! and a number. The badges that are known by name carry the number `1`; `bits` carries a count;
//! `subscriber` carries either a tier followed by `0` and months of at least two digits, or
//! months alone. Any other pair of a name and a number is an unknown badge.

use crate::ascii::{COMMA, NINE, NUL, ONE, SLASH, ZERO};
use crate::error::ParseError;
use crate::num::{all_digits, is_digit, parse_bounded_in};
use crate::parse::{result_view, FromText};
use crate::text::{head_of, is_byte, range_eq, split_first, string_bytes, tail_of};
use crate::twitch::attributes::{
    option_view, views, Attribution, AttributionVec, SeparatorInfo,
};
use vstd::prelude::*;
use vstd::string::StringSliceAdditionalSpecFns;

verus! {

/// The kind of badge owned by the user.
#[non_exhaustive]
#[derive(Debug, Clone, PartialEq, Eq, Hash)]
pub enum Badge {
    /// Admin badge
    Admin,
    /// Broadcaster badge
    Broadcaster,
    /// Moderator badge
    Moderator,
    /// Staff badge
    Staff,
    /// Turbo badge
    Turbo,
    /// Premium badge
    Premium,
    /// VIP badge
    Vip,
    /// Partner badge
    Partner,
    /// Bits badge, with the number of bits
    Bits(u64),
    /// GlobalMod badge
    GlobalMod,
    /// Subscriber badge with its tier and the months of subscription
    TierSubscriber(u8, u32),
    /// Subscriber badge with the months of subscription only
    NoTierSubscriber(u32),
    /// Unknown badge, with its name and number. Likely a custom badge
    Unknown(String, u64),
}

/// Metadata to the chat badges
pub type BadgeInfo = Badge;

/// What a badge holds.
pub enum BadgeView {
    Admin,
    Broadcaster,
    Moderator,
    Staff,
    Turbo,
    Premium,
    Vip,
    Partner,
    Bits(u64),
    GlobalMod,
    TierSubscriber(u8, u32),
    NoTierSubscriber(u32),
    Unknown(Seq<u8>, u64),
}

impl View for Badge {
    type V = BadgeView;

    open spec fn view(&self) -> BadgeView {
        match self {
            Badge::Admin => BadgeView::Admin,
            Badge::Broadcaster => BadgeView::Broadcaster,
            Badge::Moderator => BadgeView::Moderator,
            Badge::Staff => BadgeView::Staff,
            Badge::Turbo => BadgeView::Turbo,
            Badge::Premium => BadgeView::Premium,
            Badge::Vip => BadgeView::Vip,
            Badge::Partner => BadgeView::Partner,
            Badge::Bits(bits) => BadgeView::Bits(*bits),
            Badge::GlobalMod => BadgeView::GlobalMod,
            Badge::TierSubscriber(tier, months) => BadgeView::TierSubscriber(*tier, *months),
            Badge::NoTierSubscriber(months) => BadgeView::NoTierSubscriber(*months),
            Badge::Unknown(name, number) => BadgeView::Unknown(string_bytes(*name), *number),
        }
    }
}

/// The badge that is known by `name` and carries the number `1`, if there is one.
pub open spec fn named_badge(name: Seq<u8>) -> Option<BadgeView> {
    if name == "admin".spec_bytes() {
        Some(BadgeView::Admin)
    } else if name == "broadcaster".spec_bytes() {
        Some(BadgeView::Broadcaster)
    } else if name == "moderator".spec_bytes() {
        Some(BadgeView::Moderator)
    } else if name == "staff".spec_bytes() {
        Some(BadgeView::Staff)
    } else if name == "turbo".spec_bytes() {
        Some(BadgeView::Turbo)
    } else if name == "premium".spec_bytes() {
        Some(BadgeView::Premium)
    } else if name == "vip".spec_bytes() {
        Some(BadgeView::Vip)
    } else if name == "partner".spec_bytes() {
        Some(BadgeView::Partner)
    } else if name == "global_mod".spec_bytes() {
        Some(BadgeView::GlobalMod)
    } else {
        None
    }
}

/// The first position at or after `from` that holds a `0` followed by nothing but digits, two
/// at least, up to the end of `number`.
pub open spec fn tier_split(number: Seq<u8>, from: int) -> Option<int>
    decreases number.len() - from,
{
    if from < 0 || from + 3 > number.len() {
        None
    } else if number[from] == ZERO && all_digits(number.subrange(from + 1, number.len() as int)) {
        Some(from)
    } else {
        tier_split(number, from + 1)
    }
}

/// The subscriber badge with a tier that `number` denotes, if it does.
pub open spec fn tier_badge(number: Seq<u8>) -> Option<BadgeView> {
    match tier_split(number, 0) {
        Some(zero) => match (
            u8::decoded(number.subrange(0, zero)),
            u32::decoded(number.subrange(zero + 1, number.len() as int)),
        ) {
            (Ok(tier), Ok(months)) => Some(BadgeView::TierSubscriber(tier, months)),
            _ => None,
        },
        None => None,
    }
}

/// The badge with a number of its own that `name` and `number` denote, if they do.
pub open spec fn counted_badge(name: Seq<u8>, number: Seq<u8>) -> Option<BadgeView> {
    if name == "bits".spec_bytes() {
        match u64::decoded(number) {
            Ok(bits) => Some(BadgeView::Bits(bits)),
            Err(_) => None,
        }
    } else if name == "subscriber".spec_bytes() {
        match tier_badge(number) {
            Some(badge) => Some(badge),
            None => match u32::decoded(number) {
                Ok(months) => Some(BadgeView::NoTierSubscriber(months)),
                Err(_) => None,
            },
        }
    } else {
        None
    }
}

/// The badge that `text` denotes.
pub open spec fn parse_badge(text: Seq<u8>) -> Result<BadgeView, ParseError> {
    let name = head_of(text, SLASH);
    match tail_of(text, SLASH) {
        None => Err(ParseError::InvalidBadge),
        Some(number) => if number == seq![ONE] && named_badge(name) is Some {
            Ok(named_badge(name)->0)
        } else {
            match counted_badge(name, number) {
                Some(badge) => Ok(badge),
                None => match u64::decoded(number) {
                    Ok(count) => Ok(BadgeView::Unknown(name, count)),
                    Err(_) => Err(ParseError::InvalidBadge),
                },
            }
        },
    }
}

/// A name that is not recognized, followed by `/` and a number, is an unknown badge with
/// that name and that number.
pub proof fn lemma_unrecognized_name_is_unknown(text: Seq<u8>, number: Seq<u8>, count: u64)
    requires
        tail_of(text, SLASH) == Some(number),
        u64::decoded(number) == Ok::<u64, ParseError>(count),
        named_badge(head_of(text, SLASH)) is None,
        head_of(text, SLASH) != "bits".spec_bytes(),
        head_of(text, SLASH) != "subscriber".spec_bytes(),
    ensures
        parse_badge(text) == Ok::<BadgeView, ParseError>(
            BadgeView::Unknown(head_of(text, SLASH), count),
        ),
{
}

/// The badge that is known by `name`.
fn badge_by_name(name: &str) -> (badge: Option<Badge>)
    ensures
        option_view(badge) == named_badge(name.spec_bytes()),
{
    let bytes = name.as_bytes();
    let len = bytes.len();
    assert(bytes@.subrange(0, len as int) =~= bytes@);
    if range_eq(bytes, 0, len, "admin".as_bytes()) {
        Some(Badge::Admin)
    } else if range_eq(bytes, 0, len, "broadcaster".as_bytes()) {
        Some(Badge::Broadcaster)
    } else if range_eq(bytes, 0, len, "moderator".as_bytes()) {
        Some(Badge::Moderator)
    } else if range_eq(bytes, 0, len, "staff".as_bytes()) {
        Some(Badge::Staff)
    } else if range_eq(bytes, 0, len, "turbo".as_bytes()) {
        Some(Badge::Turbo)
    } else if range_eq(bytes, 0, len, "premium".as_bytes()) {
        Some(Badge::Premium)
    } else if range_eq(bytes, 0, len, "vip".as_bytes()) {
        Some(Badge::Vip)
    } else if range_eq(bytes, 0, len, "partner".as_bytes()) {
        Some(Badge::Partner)
    } else if range_eq(bytes, 0, len, "global_mod".as_bytes()) {
        Some(Badge::GlobalMod)
    } else {
        None
    }
}

/// Where the digits at the end of `bytes` begin.
fn digit_suffix(bytes: &[u8]) -> (start: usize)
    ensures
        start <= bytes@.len(),
        all_digits(bytes@.subrange(start as int, bytes@.len() as int)),
        start > 0 ==> !is_digit(bytes@[start - 1]),
{
    let len = bytes.len();
    let mut start: usize = len;
    while start > 0 && ZERO <= bytes[start - 1] && bytes[start - 1] <= NINE
        invariant
            start <= len,
            len == bytes@.len(),
            all_digits(bytes@.subrange(start as int, len as int)),
        decreases start,
    {
        start -= 1;
        assert forall|i: int| 0 <= i < len - start implies is_digit(
            #[trigger] bytes@.subrange(start as int, len as int)[i],
        ) by {
            if i > 0 {
                assert(bytes@.subrange(start as int, len as int)[i] == bytes@.subrange(
                    start + 1,
                    len as int,
                )[i - 1]);
            }
        }
    }
    start
}

/// Finds where the tier of a subscriber badge ends.
fn find_tier_split(bytes: &[u8]) -> (zero: Option<usize>)
    ensures
        match zero {
            Some(zero) => tier_split(bytes@, 0) == Some(zero as int) && zero + 3 <= bytes@.len(),
            None => tier_split(bytes@, 0) is None,
        },
{
    let len = bytes.len();
    let digits = digit_suffix(bytes);
    let mut i: usize = 0;
    while i < len && len - i >= 3
        invariant
            i <= len,
            len == bytes@.len(),
            digits <= len,
            all_digits(bytes@.subrange(digits as int, len as int)),
            digits > 0 ==> !is_digit(bytes@[digits - 1]),
            tier_split(bytes@, 0) == tier_split(bytes@, i as int),
        decreases len - i,
    {
        let ghost after = bytes@.subrange(i + 1, len as int);
        if i + 1 >= digits {
            assert(all_digits(after)) by {
                assert forall|k: int| 0 <= k < after.len() implies is_digit(
                    #[trigger] after[k],
                ) by {
                    assert(after[k] == bytes@.subrange(digits as int, len as int)[k + i + 1
                        - digits]);
                }
            }
            if bytes[i] == ZERO {
                return Some(i);
            }
        } else {
            assert(!all_digits(after)) by {
                assert(after[digits - 1 - (i + 1)] == bytes@[digits - 1]);
            }
        }
        i += 1;
    }
    None
}

/// The subscriber badge with a tier that `number` denotes.
fn subscriber_tier(number: &str) -> (badge: Option<Badge>)
    ensures
        option_view(badge) == tier_badge(number.spec_bytes()),
{
    let bytes = number.as_bytes();
    let len = bytes.len();
    match find_tier_split(bytes) {
        Some(zero) => {
            let tier = parse_bounded_in(bytes, 0, zero, 0xff);
            let months = parse_bounded_in(bytes, zero + 1, len, 0xffff_ffff);
            match (tier, months) {
                (Ok(tier), Ok(months)) => Some(Badge::TierSubscriber(tier as u8, months as u32)),
                _ => None,
            }
        },
        None => None,
    }
}

/// The badge with a number of its own that `name` and `number` denote.
fn badge_with_count(name: &str, number: &str) -> (badge: Option<Badge>)
    ensures
        option_view(badge) == counted_badge(
            name.spec_bytes(),
            number.spec_bytes(),
        ),
{
    let bytes = name.as_bytes();
    let len = bytes.len();
    assert(bytes@.subrange(0, len as int) =~= bytes@);
    if range_eq(bytes, 0, len, "bits".as_bytes()) {
        match u64::from_text(number) {
            Ok(bits) => Some(Badge::Bits(bits)),
            Err(_) => None,
        }
    } else if range_eq(bytes, 0, len, "subscriber".as_bytes()) {
        match subscriber_tier(number) {
            Some(badge) => Some(badge),
            None => match u32::from_text(number) {
                Ok(months) => Some(Badge::NoTierSubscriber(months)),
                Err(_) => None,
            },
        }
    } else {
        None
    }
}

impl Badge {
    /// Decodes one badge written as `name/number`.
    pub fn from_str(s: &str) -> (r: Result<Badge, ParseError>)
        ensures
            result_view(r) == parse_badge(s.spec_bytes()),
    {
        let (name, tail) = split_first(s, SLASH);
        let number = match tail {
            Some(number) => number,
            None => {
                return Err(ParseError::InvalidBadge);
            },
        };
        if is_byte(number.as_bytes(), ONE) {
            match badge_by_name(name) {
                Some(badge) => {
                    return Ok(badge);
                },
                None => {},
            }
        }
        match badge_with_count(name, number) {
            Some(badge) => Ok(badge),
            None => match u64::from_text(number) {
                Ok(count) => Ok(Badge::Unknown(name.to_owned(), count)),
                Err(_) => Err(ParseError::InvalidBadge),
            },
        }
    }

    /// Whether this badge is any kind of subscriber badge.
    pub fn is_subscriber(&self) -> (held: bool)
        ensures
            held == (self@ is TierSubscriber || self@ is NoTierSubscriber),
    {
        self.is_tier_subscriber() || self.is_no_tier_subscriber()
    }

    /// Whether this is the admin badge.
    pub fn is_admin(&self) -> (held: bool)
        ensures
            held == (self@ is Admin),
    {
        matches!(self, Badge::Admin)
    }

    /// Whether this is the broadcaster badge.
    pub fn is_broadcaster(&self) -> (held: bool)
        ensures
            held == (self@ is Broadcaster),
    {
        matches!(self, Badge::Broadcaster)
    }

    /// Whether this is the moderator badge.
    pub fn is_moderator(&self) -> (held: bool)
        ensures
            held == (self@ is Moderator),
    {
        matches!(self, Badge::Moderator)
    }

    /// Whether this is the staff badge.
    pub fn is_staff(&self) -> (held: bool)
        ensures
            held == (self@ is Staff),
    {
        matches!(self, Badge::Staff)
    }

    /// Whether this is the turbo badge.
    pub fn is_turbo(&self) -> (held: bool)
        ensures
            held == (self@ is Turbo),
    {
        matches!(self, Badge::Turbo)
    }

    /// Whether this is the premium badge.
    pub fn is_premium(&self) -> (held: bool)
        ensures
            held == (self@ is Premium),
    {
        matches!(self, Badge::Premium)
    }

    /// Whether this is the VIP badge.
    pub fn is_vip(&self) -> (held: bool)
        ensures
            held == (self@ is Vip),
    {
        matches!(self, Badge::Vip)
    }

    /// Whether this is the partner badge.
    pub fn is_partner(&self) -> (held: bool)
        ensures
            held == (self@ is Partner),
    {
        matches!(self, Badge::Partner)
    }

    /// Whether this is a bits badge.
    pub fn is_bits(&self) -> (held: bool)
        ensures
            held == (self@ is Bits),
    {
        matches!(self, Badge::Bits(_))
    }

    /// Whether this is the global moderator badge.
    pub fn is_global_mod(&self) -> (held: bool)
        ensures
            held == (self@ is GlobalMod),
    {
        matches!(self, Badge::GlobalMod)
    }

    /// Whether this is an unknown badge.
    pub fn is_unknown(&self) -> (held: bool)
        ensures
            held == (self@ is Unknown),
    {
        matches!(self, Badge::Unknown(_, _))
    }

    /// Whether this is the subscriber badge with a tier.
    pub fn is_tier_subscriber(&self) -> (held: bool)
        ensures
            held == (self@ is TierSubscriber),
    {
        matches!(self, Badge::TierSubscriber(_, _))
    }

    /// Whether this is the subscriber badge without a tier.
    pub fn is_no_tier_subscriber(&self) -> (held: bool)
        ensures
            held == (self@ is NoTierSubscriber),
    {
        matches!(self, Badge::NoTierSubscriber(_))
    }
}

impl FromText for Badge {
    open spec fn decoded(text: Seq<u8>) -> Result<BadgeView, ParseError> {
        parse_badge(text)
    }

    fn from_text(text: &str) -> (r: Result<Badge, ParseError>) {
        Badge::from_str(text)
    }
}

/// A badge is an entry of its own kind: it is its own reference, has no attribute, and is
/// decoded as a whole.
impl Attribution<Badge, u64> for Badge {
    open spec fn built(reference: BadgeView, attributes: Seq<u64>) -> BadgeView {
        reference
    }

    open spec fn separators() -> SeparatorInfo {
        SeparatorInfo {
            attribution_separator: COMMA,
            range_attribute_separator: NUL,
            attribute_separator: NUL,
        }
    }

    open spec fn entry(item: Seq<u8>) -> Option<BadgeView> {
        match parse_badge(item) {
            Ok(badge) => Some(badge),
            Err(_) => None,
        }
    }

    fn new(reference: Badge, _attributes: Vec<u64>) -> (made: Badge)
        ensures
            made == reference,
    {
        reference
    }

    /// Badges are separated by `,`. The other separators are not used.
    fn get_separator_info() -> (info: SeparatorInfo)
        ensures
            info.attribution_separator == COMMA,
    {
        SeparatorInfo {
            attribution_separator: COMMA,
            range_attribute_separator: NUL,
            attribute_separator: NUL,
        }
    }

    /// Decodes one badge as a whole: see `parse_badge`.
    fn parse(item: &str) -> (made: Option<Badge>)
        ensures
            option_view(made) == Badge::entry(item.spec_bytes()),
    {
        match Badge::from_str(item) {
            Ok(badge) => Some(badge),
            Err(_) => None,
        }
    }
}

/// Whether some badge of `badges` is of the kind that `kind` tells.
pub open spec fn any_of(badges: Seq<BadgeView>, kind: spec_fn(BadgeView) -> bool) -> bool {
    exists|i: int| 0 <= i < badges.len() && kind(#[trigger] badges[i])
}

/// Whether `is_badge_fn` may give `answer` when asked about a badge that holds `badge`.
pub open spec fn answers<F: Fn(&Badge) -> bool>(is_badge_fn: F, badge: BadgeView, answer: bool)
    -> bool {
    exists|asked: Badge| asked@ == badge && #[trigger] is_badge_fn.ensures((&asked,), answer)
}

/// Whether `is_badge_fn` may say yes of some badge of `badges`.
pub open spec fn yes_of_some<F: Fn(&Badge) -> bool>(is_badge_fn: F, badges: Seq<BadgeView>)
    -> bool {
    exists|i: int| 0 <= i < badges.len() && answers(is_badge_fn, #[trigger] badges[i], true)
}

/// Whether `is_badge_fn` may say no of each badge of `badges`.
pub open spec fn no_of_each<F: Fn(&Badge) -> bool>(is_badge_fn: F, badges: Seq<BadgeView>)
    -> bool {
    forall|i: int| 0 <= i < badges.len() ==> answers(is_badge_fn, #[trigger] badges[i], false)
}

/// Whether some badge of `badges` fulfills a requirement: the answer is yes where
/// `is_badge_fn` says yes of some badge, and no where it says no of each.
pub fn any_badge_of<F: Fn(&Badge) -> bool>(badges: &[Badge], is_badge_fn: F) -> (held: bool)
    requires
        forall|badge: &Badge| is_badge_fn.requires((badge,)),
    ensures
        held ==> yes_of_some(is_badge_fn, views(badges@)),
        !held ==> no_of_each(is_badge_fn, views(badges@)),
{
    let mut i: usize = 0;
    while i < badges.len()
        invariant
            i <= badges@.len(),
            views(badges@).len() == badges@.len(),
            forall|badge: &Badge| is_badge_fn.requires((badge,)),
            forall|k: int|
                0 <= k < i ==> answers(is_badge_fn, #[trigger] views(badges@)[k], false),
        decreases badges@.len() - i,
    {
        let held = is_badge_fn(&badges[i]);
        assert(badges@[i as int]@ == views(badges@)[i as int]);
        assert(answers(is_badge_fn, views(badges@)[i as int], held));
        if held {
            return true;
        }
        i += 1;
    }
    false
}

/// The badges of one message.
pub type BadgeVec = AttributionVec<Badge, u64, Badge>;

} // verus!
