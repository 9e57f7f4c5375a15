//! Text that is either borrowed from the caller or owned, and byte ranges into it.

use crate::text::{lemma_ends_boundary, range_eq, slice_str};
use vstd::prelude::*;
use vstd::std_specs::cmp::PartialEqSpecImpl;
use vstd::string::StringSliceAdditionalSpecFns;
use vstd::utf8::*;

verus! {

/// A half-open range of byte offsets into a text.
#[derive(Debug, Clone, Copy, PartialEq, Eq, Hash, Structural)]
pub struct MaybeOwnedIndex {
    /// The offset of the first byte.
    pub start: usize,
    /// The offset after the last byte.
    pub end: usize,
}

impl MaybeOwnedIndex {
    /// Whether the range lies within `bytes` and both its ends fall on character boundaries.
    pub open spec fn fits(self, bytes: Seq<u8>) -> bool {
        &&& self.start <= self.end <= bytes.len()
        &&& is_char_boundary(bytes, self.start as int)
        &&& is_char_boundary(bytes, self.end as int)
    }

    /// The bytes of `bytes` that the range covers.
    pub open spec fn of(self, bytes: Seq<u8>) -> Seq<u8> {
        bytes.subrange(self.start as int, self.end as int)
    }

    /// The range from `start` up to `end`.
    pub fn raw(start: usize, end: usize) -> (index: Self)
        ensures
            index.start == start,
            index.end == end,
    {
        MaybeOwnedIndex { start, end }
    }

    /// The number of bytes covered; zero where the ends are reversed.
    pub fn len(&self) -> (n: usize)
        ensures
            n == if self.start <= self.end {
                self.end - self.start
            } else {
                0
            },
    {
        if self.start <= self.end {
            self.end - self.start
        } else {
            0
        }
    }

    /// Whether the range covers no byte.
    pub fn is_empty(&self) -> (empty: bool)
        ensures
            empty == (self.start >= self.end),
    {
        self.start >= self.end
    }
}

/// The range of `index`, if there is one, as bytes of `bytes`.
pub open spec fn optional_of(index: Option<MaybeOwnedIndex>, bytes: Seq<u8>) -> Option<Seq<u8>> {
    match index {
        Some(index) => Some(index.of(bytes)),
        None => None,
    }
}

/// The bytes of an optional text.
pub open spec fn optional_bytes(text: Option<&str>) -> Option<Seq<u8>> {
    match text {
        Some(text) => Some(text.spec_bytes()),
        None => None,
    }
}

/// A text that is borrowed or owned.
#[derive(Debug)]
pub enum MaybeOwned<'a> {
    /// The text is owned.
    Owned(String),
    /// The text is borrowed.
    Borrowed(&'a str),
}

impl<'a> Clone for MaybeOwned<'a> {
    fn clone(&self) -> (copy: Self)
        ensures
            copy.bytes() == self.bytes(),
            copy is Owned == self is Owned,
    {
        match self {
            MaybeOwned::Owned(text) => MaybeOwned::Owned(text.clone()),
            MaybeOwned::Borrowed(text) => MaybeOwned::Borrowed(text),
        }
    }
}

impl<'a> PartialEq for MaybeOwned<'a> {
    fn eq(&self, other: &Self) -> (same: bool) {
        let mine = self.as_str().as_bytes();
        let theirs = other.as_str().as_bytes();
        assert(mine@.subrange(0, mine@.len() as int) =~= mine@);
        range_eq(mine, 0, mine.len(), theirs)
    }
}

/// Two texts are equal where their bytes are, whether owned or borrowed.
impl<'a> PartialEqSpecImpl for MaybeOwned<'a> {
    open spec fn obeys_eq_spec() -> bool {
        true
    }

    open spec fn eq_spec(&self, other: &Self) -> bool {
        self.bytes() == other.bytes()
    }
}

impl<'a> MaybeOwned<'a> {
    /// The UTF-8 bytes of the text.
    pub open spec fn bytes(&self) -> Seq<u8> {
        match self {
            MaybeOwned::Owned(text) => encode_utf8(text@),
            MaybeOwned::Borrowed(text) => text.spec_bytes(),
        }
    }

    /// Whether the text is owned.
    pub fn is_owned(&self) -> (owned: bool)
        ensures
            owned == (self is Owned),
    {
        match self {
            MaybeOwned::Owned(_) => true,
            MaybeOwned::Borrowed(_) => false,
        }
    }

    /// The text itself.
    pub fn as_str(&self) -> (text: &str)
        ensures
            text.spec_bytes() == self.bytes(),
    {
        match self {
            MaybeOwned::Owned(text) => text.as_str(),
            MaybeOwned::Borrowed(text) => text,
        }
    }

    /// The part of the text that `index` covers.
    pub fn slice(&self, index: MaybeOwnedIndex) -> (part: &str)
        requires
            index.fits(self.bytes()),
        ensures
            part.spec_bytes() == index.of(self.bytes()),
    {
        slice_str(self.as_str(), index.start, index.end)
    }

    /// The part of the text that `index` covers, if `index` lies within the text, on character
    /// boundaries.
    pub fn get(&self, index: MaybeOwnedIndex) -> (part: Option<&str>)
        ensures
            match part {
                Some(part) => index.fits(self.bytes()) && part.spec_bytes() == index.of(
                    self.bytes(),
                ),
                None => !index.fits(self.bytes()),
            },
    {
        let text = self.as_str();
        let len = text.as_bytes().len();
        if index.start <= index.end && index.end <= len && text.is_char_boundary(index.start)
            && text.is_char_boundary(index.end) {
            Some(slice_str(text, index.start, index.end))
        } else {
            None
        }
    }

    /// An owned copy of the text: the same bytes, so that every range into one fits the other.
    pub fn into_owned(self) -> (owned: MaybeOwned<'static>)
        ensures
            owned is Owned,
            owned.bytes() == self.bytes(),
    {
        match self {
            MaybeOwned::Owned(text) => MaybeOwned::Owned(text),
            MaybeOwned::Borrowed(text) => MaybeOwned::Owned(text.to_owned()),
        }
    }
}

/// The bytes of a text are valid UTF-8, so its two ends are character boundaries.
pub proof fn lemma_text_is_utf8(text: MaybeOwned)
    ensures
        valid_utf8(text.bytes()),
        is_char_boundary(text.bytes(), 0),
        is_char_boundary(text.bytes(), text.bytes().len() as int),
{
    broadcast use encode_utf8_valid_utf8;

    lemma_ends_boundary(text.bytes());
}

} // verus!
