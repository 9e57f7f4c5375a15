//! What every message that can carry tags offers.

use crate::ascii::ONE;
use crate::error::{MessageError, ParseError};
use crate::irc::message::MessageView;
use crate::irc::tags::{tag_decoded, tag_pairs, tag_value, Tags};
use crate::maybe_owned::MaybeOwnedIndex;
use crate::parse::FromText;
use crate::twitch::attributes::{entries, Attribution};
use vstd::prelude::*;

verus! {

/// A line and the index of its tags.
pub struct Line {
    /// The bytes of the line.
    pub raw: Seq<u8>,
    /// The key and value ranges of the tags, in the order of the line.
    pub tags: Seq<(MaybeOwnedIndex, MaybeOwnedIndex)>,
}

impl Line {
    /// The value of the first tag whose key is `key`.
    pub open spec fn tag(self, key: Seq<u8>) -> Option<Seq<u8>> {
        tag_value(self.raw, self.tags, key)
    }

    /// The value of the first tag whose key is `key`, decoded as a `T`.
    pub open spec fn parsed<T: FromText>(self, key: Seq<u8>) -> Option<Result<T::V, ParseError>> {
        tag_decoded::<T>(self.raw, self.tags, key)
    }

    /// Whether the value of the first tag whose key is `key` is `1`.
    pub open spec fn flag(self, key: Seq<u8>) -> bool {
        self.tag(key) == Some(seq![ONE])
    }

    /// The entries that the first tag whose key is `key` lists; none where there is no such tag.
    pub open spec fn list<Ref: FromText, Attr: FromText, T: Attribution<Ref, Attr>>(
        self,
        key: Seq<u8>,
    ) -> Seq<T::V> {
        match self.tag(key) {
            Some(value) => entries::<Ref, Attr, T>(value),
            None => Seq::empty(),
        }
    }
}

/// The line of a message and the index of its tags.
pub open spec fn line_of(msg: MessageView) -> Line {
    Line { raw: msg.raw, tags: tag_pairs(msg.raw, msg.tags) }
}

/// The view of a message that was made, or the error.
pub open spec fn made_view<T: View>(r: Result<T, MessageError>) -> Result<T::V, MessageError> {
    match r {
        Ok(made) => Ok(made@),
        Err(e) => Err(e),
    }
}

/// A message that can carry tags.
pub trait HasTags<'a> {
    /// The line of the message and the index of its tags.
    spec fn line(&self) -> Line;

    /// The tags of the message.
    fn tags(&'a self) -> (tags: Tags<'a>)
        ensures
            tags.bytes() == self.line().raw,
            tags.pairs() == self.line().tags,
    ;
}

} // verus!
