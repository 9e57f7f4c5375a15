//! Emotes: the pictograms of a message, each with the places where it stands.
//!
//! A tag lists them as `id:start-end,start-end/id:start-end`.

use crate::ascii::{COLON, COMMA, SLASH};
use crate::twitch::attributes::{
    decode_entry, entry_parts, option_view, views, Attribution, AttributionVec, MsgRange, SeparatorInfo,
};
use vstd::prelude::*;
use vstd::string::StringSliceAdditionalSpecFns;

verus! {

/// One emote and where it stands in the message.
#[derive(Debug, Clone, PartialEq, Eq, Hash)]
pub struct Emote {
    /// The id of the emote.
    pub id: usize,
    /// The ranges of the message in which the emote stands.
    pub ranges: Vec<MsgRange>,
}

/// What an emote holds.
pub struct EmoteView {
    /// The id of the emote.
    pub id: usize,
    /// The ranges of the message in which the emote stands.
    pub ranges: Seq<MsgRange>,
}

impl View for Emote {
    type V = EmoteView;

    open spec fn view(&self) -> EmoteView {
        EmoteView { id: self.id, ranges: views(self.ranges@) }
    }
}

impl Attribution<usize, MsgRange> for Emote {
    open spec fn built(reference: usize, attributes: Seq<MsgRange>) -> EmoteView {
        EmoteView { id: reference, ranges: attributes }
    }

    open spec fn separators() -> SeparatorInfo {
        SeparatorInfo {
            attribution_separator: SLASH,
            range_attribute_separator: COLON,
            attribute_separator: COMMA,
        }
    }

    open spec fn entry(item: Seq<u8>) -> Option<EmoteView> {
        match entry_parts::<usize, MsgRange>(item, Self::separators()) {
            Some((reference, attributes)) => Some(Self::built(reference, attributes)),
            None => None,
        }
    }

    fn new(reference: usize, attributes: Vec<MsgRange>) -> (made: Emote)
        ensures
            made.id == reference,
            made.ranges == attributes,
    {
        Emote { id: reference, ranges: attributes }
    }

    /// Emotes are separated by `/`, an id from its ranges by `:`, and ranges by `,`.
    fn get_separator_info() -> (info: SeparatorInfo)
        ensures
            info.attribution_separator == SLASH,
            info.range_attribute_separator == COLON,
            info.attribute_separator == COMMA,
    {
        SeparatorInfo {
            attribution_separator: SLASH,
            range_attribute_separator: COLON,
            attribute_separator: COMMA,
        }
    }

    /// Decodes one emote: the id before the first `:`, then the ranges.
    fn parse(item: &str) -> (made: Option<Emote>)
        ensures
            option_view(made) == Emote::entry(item.spec_bytes()),
    {
        match decode_entry::<usize, MsgRange>(item, Self::get_separator_info()) {
            Some((reference, attributes)) => Some(Self::new(reference, attributes)),
            None => None,
        }
    }
}

impl Emote {
    /// Decodes one emote written as `id:start-end,start-end`.
    pub fn from_str(s: &str) -> (r: Result<Emote, ()>)
        ensures
            match r {
                Ok(emote) => Emote::entry(s.spec_bytes()) == Some(emote@),
                Err(_) => Emote::entry(s.spec_bytes()) is None,
            },
    {
        match <Emote as Attribution<usize, MsgRange>>::parse(s) {
            Some(emote) => Ok(emote),
            None => Err(()),
        }
    }
}

/// The emotes of one message.
pub type EmoteVec = AttributionVec<usize, MsgRange, Emote>;

} // verus!
