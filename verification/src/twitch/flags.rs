//! Flags: the terms of a message that the moderation service has marked, with their scores.
//!
//! A tag lists them as `start-end:TYPE.SEVERITY/TYPE.SEVERITY,start-end:TYPE.SEVERITY`.
//! The types are `A`, `I`, `P` and `S`; a severity is a number from 0 to 9.

use crate::ascii::{COLON, COMMA, PERIOD, SLASH, UPPER_A, UPPER_I, UPPER_P, UPPER_S};
use crate::error::ParseError;
use crate::parse::FromText;
use crate::text::{head_of, is_byte, split_first, tail_of};
use crate::twitch::attributes::{
    decode_entry, entry_parts, option_view, views, Attribution, AttributionVec, MsgRange, SeparatorInfo,
};
use vstd::prelude::*;
use vstd::string::StringSliceAdditionalSpecFns;

verus! {

/// The kinds of offensive terms that are told apart.
#[derive(Debug, Clone, Copy, PartialEq, Eq, Hash, Structural)]
pub enum ScoreType {
    /// Aggression.
    Aggressive,
    /// Identity language.
    Identity,
    /// Profanity.
    Profanity,
    /// Sexual language.
    Sexual,
}

/// A score given to a term: its kind and its severity.
#[derive(Debug, Clone, Copy, PartialEq, Eq, Hash, Structural)]
pub struct Score(pub ScoreType, pub u8);

impl View for Score {
    type V = Score;

    open spec fn view(&self) -> Score {
        *self
    }
}

/// The kind that a letter denotes.
pub open spec fn score_type_of(text: Seq<u8>) -> Option<ScoreType> {
    if text == seq![UPPER_A] {
        Some(ScoreType::Aggressive)
    } else if text == seq![UPPER_I] {
        Some(ScoreType::Identity)
    } else if text == seq![UPPER_P] {
        Some(ScoreType::Profanity)
    } else if text == seq![UPPER_S] {
        Some(ScoreType::Sexual)
    } else {
        None
    }
}

/// The score that `TYPE.SEVERITY` denotes: a letter before the first `.`, and after it a number
/// from 0 to 9.
pub open spec fn parse_score(text: Seq<u8>) -> Result<Score, ParseError> {
    match (score_type_of(head_of(text, PERIOD)), tail_of(text, PERIOD)) {
        (Some(kind), Some(tail)) => match u8::decoded(tail) {
            Ok(severity) => if severity <= 9 {
                Ok(Score(kind, severity))
            } else {
                Err(ParseError::InvalidScore)
            },
            Err(_) => Err(ParseError::InvalidScore),
        },
        _ => Err(ParseError::InvalidScore),
    }
}

/// The kind that a letter denotes.
fn score_type(text: &str) -> (kind: Option<ScoreType>)
    ensures
        kind == score_type_of(text.spec_bytes()),
{
    let bytes = text.as_bytes();
    if is_byte(bytes, UPPER_A) {
        Some(ScoreType::Aggressive)
    } else if is_byte(bytes, UPPER_I) {
        Some(ScoreType::Identity)
    } else if is_byte(bytes, UPPER_P) {
        Some(ScoreType::Profanity)
    } else if is_byte(bytes, UPPER_S) {
        Some(ScoreType::Sexual)
    } else {
        None
    }
}

impl Score {
    /// Decodes a score written as `TYPE.SEVERITY`.
    pub fn from_str(s: &str) -> (r: Result<Score, ParseError>)
        ensures
            r == parse_score(s.spec_bytes()),
    {
        let (head, tail) = split_first(s, PERIOD);
        match (score_type(head), tail) {
            (Some(kind), Some(tail)) => match u8::from_text(tail) {
                Ok(severity) => if severity <= 9 {
                    Ok(Score(kind, severity))
                } else {
                    Err(ParseError::InvalidScore)
                },
                Err(_) => Err(ParseError::InvalidScore),
            },
            _ => Err(ParseError::InvalidScore),
        }
    }
}

impl FromText for Score {
    open spec fn decoded(text: Seq<u8>) -> Result<Score, ParseError> {
        parse_score(text)
    }

    fn from_text(text: &str) -> (r: Result<Score, ParseError>) {
        Score::from_str(text)
    }
}

/// A marked term: where it stands in the message, and its scores.
#[derive(Debug, Clone, PartialEq, Eq, Hash)]
pub struct Flag {
    /// The range of the message in which the term stands.
    pub range: MsgRange,
    /// The scores of the term.
    pub scores: Vec<Score>,
}

/// What a flag holds.
pub struct FlagView {
    /// The range of the message in which the term stands.
    pub range: MsgRange,
    /// The scores of the term.
    pub scores: Seq<Score>,
}

impl View for Flag {
    type V = FlagView;

    open spec fn view(&self) -> FlagView {
        FlagView { range: self.range, scores: views(self.scores@) }
    }
}

impl Attribution<MsgRange, Score> for Flag {
    open spec fn built(reference: MsgRange, attributes: Seq<Score>) -> FlagView {
        FlagView { range: reference, scores: attributes }
    }

    open spec fn separators() -> SeparatorInfo {
        SeparatorInfo {
            attribution_separator: COMMA,
            range_attribute_separator: COLON,
            attribute_separator: SLASH,
        }
    }

    open spec fn entry(item: Seq<u8>) -> Option<FlagView> {
        match entry_parts::<MsgRange, Score>(item, Self::separators()) {
            Some((reference, attributes)) => Some(Self::built(reference, attributes)),
            None => None,
        }
    }

    fn new(reference: MsgRange, attributes: Vec<Score>) -> (made: Flag)
        ensures
            made.range == reference,
            made.scores == attributes,
    {
        Flag { range: reference, scores: attributes }
    }

    /// Flags are separated by `,`, a range from its scores by `:`, and scores by `/`.
    fn get_separator_info() -> (info: SeparatorInfo)
        ensures
            info.attribution_separator == COMMA,
            info.range_attribute_separator == COLON,
            info.attribute_separator == SLASH,
    {
        SeparatorInfo {
            attribution_separator: COMMA,
            range_attribute_separator: COLON,
            attribute_separator: SLASH,
        }
    }

    /// Decodes one flag: the range before the first `:`, then the scores.
    fn parse(item: &str) -> (made: Option<Flag>)
        ensures
            option_view(made) == Flag::entry(item.spec_bytes()),
    {
        match decode_entry::<MsgRange, Score>(item, Self::get_separator_info()) {
            Some((reference, attributes)) => Some(Self::new(reference, attributes)),
            None => None,
        }
    }
}

/// The flags of one message.
pub type FlagVec = AttributionVec<MsgRange, Score, Flag>;

} // verus!
