//! The index of a line's tags, and typed lookup in it.
//!
//! A tag list is split on `;`, and each piece on its first `=` into a key and a value. A piece
//! without `=` is a key with an empty value; an empty piece is passed over. Where a key occurs
//! more than once, lookup finds the first.

use crate::ascii::{
    AT, BACKSLASH, CARRIAGE_RETURN, COLON, EQUALS, LINE_FEED, LOWER_N, LOWER_R, LOWER_S, ONE,
    SEMICOLON, SPACE,
};
use crate::error::ParseError;
use crate::irc::message::span;
use crate::maybe_owned::{optional_bytes, optional_of, MaybeOwnedIndex};
use crate::parse::FromText;
use crate::text::{
    find_byte, index_of, is_byte, lemma_beside_ascii, lemma_find_byte, push_text, range_eq, slice_str,
    string_bytes,
};
use crate::twitch::attributes::{entries, Attribution, AttributionVec};
use vstd::prelude::*;
use vstd::string::{is_ascii, is_ascii_spec_bytes, StringSliceAdditionalSpecFns};
use vstd::utf8::*;

verus! {

/// The result of decoding a tag that is present: the value, or why its text is none.
pub type ParsedTag<T> = Result<T, ParseError>;

/// The key and value ranges of the tags between `from` and `to`, in order.
pub open spec fn scan_tags(bytes: Seq<u8>, from: int, to: int) -> Seq<
    (MaybeOwnedIndex, MaybeOwnedIndex),
>
    decreases to - from,
{
    if from >= to {
        Seq::empty()
    } else {
        let end = find_byte(bytes, from, to, SEMICOLON);
        let mark = find_byte(bytes, from, end, EQUALS);
        proof {
            lemma_find_byte(bytes, from, to, SEMICOLON);
        }
        let rest = if end < to {
            scan_tags(bytes, end + 1, to)
        } else {
            Seq::empty()
        };
        if end == from {
            rest
        } else if mark < end {
            seq![(span(from, mark), span(mark + 1, end))] + rest
        } else {
            seq![(span(from, end), span(end, end))] + rest
        }
    }
}

/// The key and value ranges of a tag list that starts with `@`.
pub open spec fn tag_pairs(bytes: Seq<u8>, tags: Option<MaybeOwnedIndex>) -> Seq<
    (MaybeOwnedIndex, MaybeOwnedIndex),
> {
    match tags {
        Some(tags) => if tags.start < tags.end && bytes[tags.start as int] == AT {
            scan_tags(bytes, tags.start + 1, tags.end as int)
        } else {
            Seq::empty()
        },
        None => Seq::empty(),
    }
}

/// Whether every key and value range lies within `bytes`, on character boundaries.
pub open spec fn pairs_fit(bytes: Seq<u8>, pairs: Seq<(MaybeOwnedIndex, MaybeOwnedIndex)>) -> bool {
    forall|i: int|
        0 <= i < pairs.len() ==> (#[trigger] pairs[i]).0.fits(bytes) && pairs[i].1.fits(bytes)
}

/// The keys and values that are found between two character boundaries of valid UTF-8 lie
/// within the text, on character boundaries.
pub proof fn lemma_scan_tags_fit(bytes: Seq<u8>, from: int, to: int)
    requires
        valid_utf8(bytes),
        0 <= from <= to <= bytes.len(),
        to <= usize::MAX,
        is_char_boundary(bytes, from),
        is_char_boundary(bytes, to),
    ensures
        pairs_fit(bytes, scan_tags(bytes, from, to)),
    decreases to - from,
{
    if from < to {
        let end = find_byte(bytes, from, to, SEMICOLON);
        let mark = find_byte(bytes, from, end, EQUALS);
        lemma_find_byte(bytes, from, to, SEMICOLON);
        lemma_find_byte(bytes, from, end, EQUALS);
        let rest = if end < to {
            lemma_beside_ascii(bytes, end);
            lemma_beside_ascii(bytes, end + 1);
            lemma_scan_tags_fit(bytes, end + 1, to);
            scan_tags(bytes, end + 1, to)
        } else {
            Seq::empty()
        };
        if mark < end {
            lemma_beside_ascii(bytes, mark);
            lemma_beside_ascii(bytes, mark + 1);
        }
        let all = scan_tags(bytes, from, to);
        assert forall|i: int| 0 <= i < all.len() implies (#[trigger] all[i]).0.fits(bytes)
            && all[i].1.fits(bytes) by {
            if end > from && i > 0 {
                assert(all[i] == rest[i - 1]);
            }
        }
    }
}

/// The keys and values of a tag list of valid UTF-8 lie within the text, on character
/// boundaries.
pub proof fn lemma_tag_pairs_fit(bytes: Seq<u8>, tags: Option<MaybeOwnedIndex>)
    requires
        valid_utf8(bytes),
        tags matches Some(tags) ==> tags.fits(bytes),
    ensures
        pairs_fit(bytes, tag_pairs(bytes, tags)),
{
    match tags {
        Some(tags) => {
            if tags.start < tags.end && bytes[tags.start as int] == AT {
                lemma_beside_ascii(bytes, tags.start + 1);
                lemma_scan_tags_fit(bytes, tags.start + 1, tags.end as int);
            }
        },
        None => {},
    }
}

/// The value range of the first pair at or after `from` whose key is `key`.
pub open spec fn lookup_from(
    bytes: Seq<u8>,
    pairs: Seq<(MaybeOwnedIndex, MaybeOwnedIndex)>,
    key: Seq<u8>,
    from: int,
) -> Option<MaybeOwnedIndex>
    decreases pairs.len() - from,
{
    if from < 0 || from >= pairs.len() {
        None
    } else if pairs[from].0.of(bytes) == key {
        Some(pairs[from].1)
    } else {
        lookup_from(bytes, pairs, key, from + 1)
    }
}

/// Where a key occurs more than once, lookup finds its first occurrence: the pair at `at`
/// is found from `from` on if its key is `key` and no pair between the two has that key.
pub proof fn lemma_first_key_wins(
    bytes: Seq<u8>,
    pairs: Seq<(MaybeOwnedIndex, MaybeOwnedIndex)>,
    key: Seq<u8>,
    from: int,
    at: int,
)
    requires
        0 <= from <= at < pairs.len(),
        pairs[at].0.of(bytes) == key,
        forall|i: int| from <= i < at ==> (#[trigger] pairs[i]).0.of(bytes) != key,
    ensures
        lookup_from(bytes, pairs, key, from) == Some(pairs[at].1),
    decreases at - from,
{
    if from < at {
        assert(pairs[from].0.of(bytes) != key);
        lemma_first_key_wins(bytes, pairs, key, from + 1, at);
    }
}

/// Lookup finds nothing exactly where no pair has the key.
pub proof fn lemma_absent_key(
    bytes: Seq<u8>,
    pairs: Seq<(MaybeOwnedIndex, MaybeOwnedIndex)>,
    key: Seq<u8>,
    from: int,
)
    requires
        0 <= from,
    ensures
        lookup_from(bytes, pairs, key, from) is None <==> forall|i: int|
            from <= i < pairs.len() ==> (#[trigger] pairs[i]).0.of(bytes) != key,
    decreases pairs.len() - from,
{
    if from < pairs.len() {
        lemma_absent_key(bytes, pairs, key, from + 1);
    }
}

/// The value of the first tag whose key is `key`.
pub open spec fn tag_value(
    bytes: Seq<u8>,
    pairs: Seq<(MaybeOwnedIndex, MaybeOwnedIndex)>,
    key: Seq<u8>,
) -> Option<Seq<u8>> {
    optional_of(lookup_from(bytes, pairs, key, 0), bytes)
}

/// The value of the first tag whose key is `key`, decoded as a `T`.
pub open spec fn tag_decoded<T: FromText>(
    bytes: Seq<u8>,
    pairs: Seq<(MaybeOwnedIndex, MaybeOwnedIndex)>,
    key: Seq<u8>,
) -> Option<Result<T::V, ParseError>> {
    match tag_value(bytes, pairs, key) {
        Some(value) => Some(T::decoded(value)),
        None => None,
    }
}

/// The views of an optional decoding result.
pub open spec fn parsed_view<T: View>(r: Option<Result<T, ParseError>>) -> Option<
    Result<T::V, ParseError>,
> {
    match r {
        Some(Ok(value)) => Some(Ok(value@)),
        Some(Err(e)) => Some(Err(e)),
        None => None,
    }
}

/// The key and value ranges of the tags of one line.
#[derive(Debug, PartialEq, Eq)]
pub struct TagIndices {
    pub(crate) map: Vec<(MaybeOwnedIndex, MaybeOwnedIndex)>,
}

impl View for TagIndices {
    type V = Seq<(MaybeOwnedIndex, MaybeOwnedIndex)>;

    closed spec fn view(&self) -> Seq<(MaybeOwnedIndex, MaybeOwnedIndex)> {
        self.map@
    }
}

impl Clone for TagIndices {
    fn clone(&self) -> (copy: Self)
        ensures
            copy@ == self@,
    {
        let mut map: Vec<(MaybeOwnedIndex, MaybeOwnedIndex)> = Vec::new();
        let mut i: usize = 0;
        while i < self.map.len()
            invariant
                i <= self.map@.len(),
                map@ == self.map@.subrange(0, i as int),
            decreases self.map@.len() - i,
        {
            map.push(self.map[i]);
            assert(map@ =~= self.map@.subrange(0, i + 1));
            i += 1;
        }
        assert(map@ =~= self.map@);
        TagIndices { map }
    }
}

impl TagIndices {
    /// Indexes a tag list of `text` that starts with `@`.
    pub(crate) fn build_indices(text: &str, tags: Option<MaybeOwnedIndex>) -> (indices: TagIndices)
        requires
            tags matches Some(tags) ==> tags.fits(text.spec_bytes()),
        ensures
            indices@ == tag_pairs(text.spec_bytes(), tags),
            pairs_fit(text.spec_bytes(), indices@),
    {
        let mut map: Vec<(MaybeOwnedIndex, MaybeOwnedIndex)> = Vec::new();
        let tags = match tags {
            Some(tags) => tags,
            None => {
                return TagIndices { map };
            },
        };
        let bytes = text.as_bytes();
        if tags.start >= tags.end || bytes[tags.start] != AT {
            return TagIndices { map };
        }
        let to: usize = tags.end;
        let mut pos: usize = tags.start + 1;
        let ghost total = scan_tags(bytes@, tags.start + 1, to as int);
        assert(map@ + scan_tags(bytes@, pos as int, to as int) =~= total);
        while pos < to
            invariant
                pos <= to <= bytes@.len(),
                map@ + scan_tags(bytes@, pos as int, to as int) == total,
            decreases to - pos,
        {
            let end = index_of(bytes, pos, to, SEMICOLON);
            let mark = index_of(bytes, pos, end, EQUALS);
            let ghost before = map@;
            let ghost rest = if end < to {
                scan_tags(bytes@, end + 1, to as int)
            } else {
                Seq::empty()
            };
            if end > pos {
                let pair = if mark < end {
                    (MaybeOwnedIndex::raw(pos, mark), MaybeOwnedIndex::raw(mark + 1, end))
                } else {
                    (MaybeOwnedIndex::raw(pos, end), MaybeOwnedIndex::raw(end, end))
                };
                map.push(pair);
                assert(map@ + rest =~= before + (seq![pair] + rest));
            }
            pos = if end < to {
                end + 1
            } else {
                to
            };
        }
        proof {
            broadcast use encode_utf8_valid_utf8;

            assert(map@ + Seq::<(MaybeOwnedIndex, MaybeOwnedIndex)>::empty() =~= map@);
            lemma_tag_pairs_fit(bytes@, Some(tags));
        }
        TagIndices { map }
    }

    /// The number of tags.
    pub fn len(&self) -> (n: usize)
        ensures
            n == self@.len(),
    {
        self.map.len()
    }

    /// Whether there is no tag.
    pub fn is_empty(&self) -> (empty: bool)
        ensures
            empty == (self@.len() == 0),
    {
        self.map.len() == 0
    }
}

/// The tags of one line: its text and the index of its tags.
#[derive(Debug)]
pub struct Tags<'a> {
    pub(crate) data: &'a str,
    pub(crate) indices: &'a TagIndices,
}

impl<'a> Tags<'a> {
    /// Every key and value range lies within the text, on character boundaries.
    #[verifier::type_invariant]
    pub closed spec fn well_formed(&self) -> bool {
        pairs_fit(self.data.spec_bytes(), self.indices@)
    }

    /// The bytes of the line.
    pub closed spec fn bytes(&self) -> Seq<u8> {
        self.data.spec_bytes()
    }

    /// The key and value ranges, in the order of the line.
    pub closed spec fn pairs(&self) -> Seq<(MaybeOwnedIndex, MaybeOwnedIndex)> {
        self.indices@
    }

    /// The value of the first tag whose key is `key`.
    pub open spec fn value(&self, key: Seq<u8>) -> Option<Seq<u8>> {
        tag_value(self.bytes(), self.pairs(), key)
    }

    /// The tags of `data` that `indices` lists.
    pub(crate) fn new(data: &'a str, indices: &'a TagIndices) -> (tags: Tags<'a>)
        requires
            pairs_fit(data.spec_bytes(), indices@),
        ensures
            tags.bytes() == data.spec_bytes(),
            tags.pairs() == indices@,
    {
        Tags { data, indices }
    }

    /// The number of tags.
    pub fn len(&self) -> (n: usize)
        ensures
            n == self.pairs().len(),
    {
        self.indices.len()
    }

    /// Whether there is no tag.
    pub fn is_empty(&self) -> (empty: bool)
        ensures
            empty == (self.pairs().len() == 0),
    {
        self.indices.is_empty()
    }

    /// The key and the value of the tag at `nth`, counted from zero in the order of the line.
    pub fn nth(&self, nth: usize) -> (pair: Option<(&'a str, &'a str)>)
        ensures
            match pair {
                Some(pair) => nth < self.pairs().len() && pair.0.spec_bytes() == self.pairs()[nth as int].0.of(
                    self.bytes(),
                ) && pair.1.spec_bytes() == self.pairs()[nth as int].1.of(self.bytes()),
                None => nth >= self.pairs().len(),
            },
    {
        proof {
            use_type_invariant(self);
        }
        if nth < self.indices.map.len() {
            let (key, value) = self.indices.map[nth];
            Some(
                (
                    slice_str(self.data, key.start, key.end),
                    slice_str(self.data, value.start, value.end),
                ),
            )
        } else {
            None
        }
    }

    /// The range of the value of the first tag whose key is `key`.
    pub fn get_index(&self, key: &str) -> (index: Option<MaybeOwnedIndex>)
        ensures
            index == lookup_from(self.bytes(), self.pairs(), key.spec_bytes(), 0),
            index matches Some(index) ==> index.fits(self.bytes()),
    {
        proof {
            use_type_invariant(self);
        }
        let bytes = self.data.as_bytes();
        let wanted = key.as_bytes();
        let mut i: usize = 0;
        while i < self.indices.map.len()
            invariant
                i <= self.indices.map@.len(),
                bytes@ == self.data.spec_bytes(),
                wanted@ == key.spec_bytes(),
                pairs_fit(bytes@, self.indices.map@),
                lookup_from(bytes@, self.indices.map@, wanted@, 0) == lookup_from(
                    bytes@,
                    self.indices.map@,
                    wanted@,
                    i as int,
                ),
            decreases self.indices.map@.len() - i,
        {
            let (name, value) = self.indices.map[i];
            assert(self.indices.map@[i as int].0.fits(bytes@));
            if range_eq(bytes, name.start, name.end, wanted) {
                return Some(value);
            }
            i += 1;
        }
        None
    }

    /// The value of the first tag whose key is `key`, if there is one.
    pub fn get(&self, key: &str) -> (value: Option<&'a str>)
        ensures
            optional_bytes(value) == self.value(key.spec_bytes()),
    {
        match self.get_index(key) {
            Some(index) => Some(slice_str(self.data, index.start, index.end)),
            None => None,
        }
    }

    /// The value of the first tag whose key is `key`, decoded as a `T`: nothing where no tag
    /// has that key, else the value or the reason why the text is none.
    pub fn get_parsed<T: FromText>(&self, key: &str) -> (r: Option<ParsedTag<T>>)
        ensures
            parsed_view(r) == tag_decoded::<T>(self.bytes(), self.pairs(), key.spec_bytes()),
    {
        match self.get(key) {
            Some(text) => Some(T::from_text(text)),
            None => None,
        }
    }

    /// The entries that the value of the first tag whose key is `key` lists; none where there
    /// is no such tag.
    pub fn get_list<Ref: FromText, Attr: FromText, T: Attribution<Ref, Attr>>(
        &self,
        key: &str,
    ) -> (list: AttributionVec<Ref, Attr, T>)
        ensures
            list@ == match self.value(key.spec_bytes()) {
                Some(value) => entries::<Ref, Attr, T>(value),
                None => Seq::empty(),
            },
    {
        match self.get(key) {
            Some(text) => match AttributionVec::<Ref, Attr, T>::from_str(text) {
                Ok(list) => list,
                Err(_) => AttributionVec::new(Vec::new()),
            },
            None => {
                let list = AttributionVec::<Ref, Attr, T>::new(Vec::new());
                assert(list@ =~= Seq::<T::V>::empty());
                list
            },
        }
    }

    /// Whether the value of the first tag whose key is `key` is `1`.
    pub fn get_as_bool(&self, key: &str) -> (flag: bool)
        ensures
            flag == (self.value(key.spec_bytes()) == Some(seq![ONE])),
    {
        match self.get(key) {
            Some(text) => is_byte(text.as_bytes(), ONE),
            None => false,
        }
    }
}

/// The bytes of the text `1`.
pub proof fn lemma_one_bytes()
    ensures
        "1".spec_bytes() == seq![ONE],
{
    broadcast use is_ascii_spec_bytes;

    reveal_strlit("1");
    assert(is_ascii("1"));
    assert("1".spec_bytes() =~= seq![ONE]);
}

/// A flag is set exactly where lookup finds the text `1`: for every index of tags and every
/// key, what `get_as_bool` answers is whether what `get` answers is the text `1`.
pub proof fn lemma_flag_is_lookup_of_one(tags: Tags, key: &str, flag: bool, found: Option<&str>)
    requires
        flag == (tags.value(key.spec_bytes()) == Some(seq![ONE])),
        optional_bytes(found) == tags.value(key.spec_bytes()),
    ensures
        flag <==> (found matches Some(text) && text@ == "1"@),
{
    broadcast use encode_utf8_decode_utf8;

    lemma_one_bytes();
    match found {
        Some(text) => {
            if text.spec_bytes() == "1".spec_bytes() {
                assert(decode_utf8(encode_utf8(text@)) == text@);
                assert(decode_utf8(encode_utf8("1"@)) == "1"@);
            }
        },
        None => {},
    }
}

/// The byte that stands for the escape `\\` followed by `code`, if that is an escape:
/// `s` is a space, `r` a carriage return, `n` a line feed, `:` a colon and `\\` a backslash.
pub open spec fn escape_of(code: u8) -> Option<u8> {
    if code == LOWER_S {
        Some(SPACE)
    } else if code == LOWER_R {
        Some(CARRIAGE_RETURN)
    } else if code == LOWER_N {
        Some(LINE_FEED)
    } else if code == COLON {
        Some(COLON)
    } else if code == BACKSLASH {
        Some(BACKSLASH)
    } else {
        None
    }
}

/// Whether an escape stands at `at`.
pub open spec fn escape_at(value: Seq<u8>, at: int) -> bool {
    0 <= at && at + 1 < value.len() && value[at] == BACKSLASH && escape_of(value[at + 1]) is Some
}

/// The text that the value of a tag stands for from `from` on: each escape gives its byte, and
/// every other byte, a backslash that begins no escape too, stands for itself.
pub open spec fn unescaped_from(value: Seq<u8>, from: int) -> Seq<u8>
    decreases value.len() - from,
{
    if from < 0 || from >= value.len() {
        Seq::empty()
    } else if escape_at(value, from) {
        seq![escape_of(value[from + 1])->0] + unescaped_from(value, from + 2)
    } else {
        seq![value[from]] + unescaped_from(value, from + 1)
    }
}

/// The text that the value of a tag stands for.
pub open spec fn unescaped(value: Seq<u8>) -> Seq<u8> {
    unescaped_from(value, 0)
}

/// The text of one byte that an escape stands for.
fn escape_text(code: u8) -> (text: Option<&'static str>)
    ensures
        match text {
            Some(text) => escape_of(code) matches Some(byte) && text.spec_bytes() == seq![byte],
            None => escape_of(code) is None,
        },
{
    broadcast use is_ascii_spec_bytes;

    if code == LOWER_S {
        proof {
            reveal_strlit(" ");
            assert(is_ascii(" "));
            assert(" ".spec_bytes() =~= seq![SPACE]);
        }
        Some(" ")
    } else if code == LOWER_R {
        proof {
            reveal_strlit("\r");
            assert(is_ascii("\r"));
            assert("\r".spec_bytes() =~= seq![CARRIAGE_RETURN]);
        }
        Some("\r")
    } else if code == LOWER_N {
        proof {
            reveal_strlit("\n");
            assert(is_ascii("\n"));
            assert("\n".spec_bytes() =~= seq![LINE_FEED]);
        }
        Some("\n")
    } else if code == COLON {
        proof {
            reveal_strlit(":");
            assert(is_ascii(":"));
            assert(":".spec_bytes() =~= seq![COLON]);
        }
        Some(":")
    } else if code == BACKSLASH {
        proof {
            reveal_strlit("\\");
            assert(is_ascii("\\"));
            assert("\\".spec_bytes() =~= seq![BACKSLASH]);
        }
        Some("\\")
    } else {
        None
    }
}

/// Replaces the escapes of the value of a tag by what they stand for: see `unescaped`.
pub fn unescape(value: &str) -> (text: String)
    ensures
        string_bytes(text) == unescaped(value.spec_bytes()),
{
    let bytes = value.as_bytes();
    let len = bytes.len();
    let mut text = String::new();
    let mut start: usize = 0;
    let mut i: usize = 0;
    proof {
        broadcast use encode_utf8_valid_utf8;

        lemma_beside_ascii(bytes@, 0);
        assert(string_bytes(text) =~= Seq::<u8>::empty());
        assert(string_bytes(text) + bytes@.subrange(0, 0) + unescaped_from(bytes@, 0)
            =~= unescaped(bytes@));
    }
    while i < len
        invariant
            start <= i <= len,
            len == bytes@.len(),
            bytes@ == value.spec_bytes(),
            valid_utf8(bytes@),
            is_char_boundary(bytes@, start as int),
            string_bytes(text) + bytes@.subrange(start as int, i as int) + unescaped_from(
                bytes@,
                i as int,
            ) == unescaped(bytes@),
        decreases len - i,
    {
        let ghost done = string_bytes(text);
        let ghost run = bytes@.subrange(start as int, i as int);
        let replacement = if bytes[i] == BACKSLASH && len - i >= 2 {
            escape_text(bytes[i + 1])
        } else {
            None
        };
        match replacement {
            Some(replacement) => {
                proof {
                    lemma_beside_ascii(bytes@, i as int);
                    lemma_beside_ascii(bytes@, i + 2);
                }
                push_text(&mut text, slice_str(value, start, i));
                push_text(&mut text, replacement);
                i += 2;
                start = i;
                assert(string_bytes(text) + bytes@.subrange(start as int, i as int)
                    + unescaped_from(bytes@, i as int) =~= done + run + (seq![
                    escape_of(bytes@[i - 1])->0,
                ] + unescaped_from(bytes@, i as int)));
            },
            None => {
                i += 1;
                assert(done + bytes@.subrange(start as int, i as int) + unescaped_from(
                    bytes@,
                    i as int,
                ) =~= done + run + (seq![bytes@[i - 1]] + unescaped_from(bytes@, i as int)));
            },
        }
    }
    proof {
        is_char_boundary_start_end_of_seq(bytes@);
    }
    let ghost done = string_bytes(text);
    push_text(&mut text, slice_str(value, start, len));
    assert(string_bytes(text) =~= done + bytes@.subrange(start as int, len as int)
        + unescaped_from(bytes@, len as int));
    text
}

} // verus!
