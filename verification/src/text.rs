//! Byte-level helpers over UTF-8 text: searching, comparing and slicing.

use crate::ascii::ASCII_MAX;
use vstd::prelude::*;
use vstd::string::{StringExecFns, StringSliceAdditionalSpecFns};
use vstd::utf8::*;

verus! {

/// The UTF-8 bytes of an owned text.
pub open spec fn string_bytes(text: String) -> Seq<u8> {
    encode_utf8(text@)
}

/// The position of the first occurrence of `byte` in `bytes[from..to)`, or `to` if there is none.
pub open spec fn find_byte(bytes: Seq<u8>, from: int, to: int, byte: u8) -> int
    decreases to - from,
{
    if from >= to {
        to
    } else if bytes[from] == byte {
        from
    } else {
        find_byte(bytes, from + 1, to, byte)
    }
}

/// `find_byte` stays within the searched window, stops on `byte`, and skips nothing equal to it.
pub proof fn lemma_find_byte(bytes: Seq<u8>, from: int, to: int, byte: u8)
    requires
        from <= to,
    ensures
        from <= find_byte(bytes, from, to, byte) <= to,
        find_byte(bytes, from, to, byte) < to ==> bytes[find_byte(bytes, from, to, byte)] == byte,
        forall|i: int| from <= i < find_byte(bytes, from, to, byte) ==> bytes[i] != byte,
    decreases to - from,
{
    if from < to && bytes[from] != byte {
        lemma_find_byte(bytes, from + 1, to, byte);
    }
}

/// Scans `bytes[from..to)` for `byte`.
pub fn index_of(bytes: &[u8], from: usize, to: usize, byte: u8) -> (pos: usize)
    requires
        from <= to <= bytes@.len(),
    ensures
        pos == find_byte(bytes@, from as int, to as int, byte),
        from <= pos <= to,
{
    let mut i: usize = from;
    proof {
        lemma_find_byte(bytes@, from as int, to as int, byte);
    }
    while i < to
        invariant
            from <= i <= to <= bytes@.len(),
            find_byte(bytes@, from as int, to as int, byte) == find_byte(
                bytes@,
                i as int,
                to as int,
                byte,
            ),
        decreases to - i,
    {
        if bytes[i] == byte {
            return i;
        }
        i += 1;
    }
    i
}

/// The sub-slice of `s` between two byte offsets that fall on character boundaries.
pub fn slice_str<'a>(s: &'a str, start: usize, end: usize) -> (out: &'a str)
    requires
        start <= end <= s.spec_bytes().len(),
        is_char_boundary(s.spec_bytes(), start as int),
        is_char_boundary(s.spec_bytes(), end as int),
    ensures
        out.spec_bytes() == s.spec_bytes().subrange(start as int, end as int),
{
    let (head, _) = s.split_at(end);
    proof {
        broadcast use encode_utf8_valid_utf8;
        lemma_boundary_in_prefix(s.spec_bytes(), start as int, end as int);
    }
    let (_, out) = head.split_at(start);
    assert(out.spec_bytes() =~= s.spec_bytes().subrange(start as int, end as int));
    out
}

/// A boundary of the whole text that lies within a prefix cut at a boundary is a boundary of that prefix.
pub proof fn lemma_boundary_in_prefix(bytes: Seq<u8>, index: int, end: int)
    requires
        valid_utf8(bytes),
        0 <= index <= end <= bytes.len(),
        is_char_boundary(bytes, index),
        is_char_boundary(bytes, end),
    ensures
        valid_utf8(bytes.subrange(0, end)),
        is_char_boundary(bytes.subrange(0, end), index),
{
    valid_utf8_split(bytes, end);
    let prefix = bytes.subrange(0, end);
    if index == end {
        is_char_boundary_start_end_of_seq(prefix);
    } else {
        is_char_boundary_iff_not_is_continuation_byte(bytes, index);
        is_char_boundary_iff_not_is_continuation_byte(prefix, index);
    }
}

/// The position of an ASCII byte in valid UTF-8 is a character boundary, and so is the position after it.
pub proof fn lemma_ascii_boundary(bytes: Seq<u8>, index: int)
    requires
        valid_utf8(bytes),
        0 <= index < bytes.len(),
        bytes[index] <= ASCII_MAX,
    ensures
        is_char_boundary(bytes, index),
        is_char_boundary(bytes, index + 1),
    decreases bytes.len(),
{
    is_char_boundary_iff_not_is_continuation_byte(bytes, index);
    let rest = pop_first_scalar(bytes);
    let width = length_of_first_scalar(bytes);
    if index == 0 {
        assert(width == 1);
        assert(is_char_boundary(rest, 0));
    } else {
        assert(is_char_boundary(rest, index - width));
        assert(index - width >= 0);
        assert(rest[index - width] == bytes[index]);
        lemma_ascii_boundary(rest, index - width);
    }
}

/// Whether `index` is an end of `bytes`, or the position of an ASCII byte, or the position after one.
pub open spec fn beside_ascii(bytes: Seq<u8>, index: int) -> bool {
    ||| index == 0
    ||| index == bytes.len()
    ||| (0 <= index < bytes.len() && bytes[index] <= ASCII_MAX)
    ||| (0 < index <= bytes.len() && bytes[index - 1] <= ASCII_MAX)
}

/// In valid UTF-8, every position beside an ASCII byte is a character boundary.
pub proof fn lemma_beside_ascii(bytes: Seq<u8>, index: int)
    requires
        valid_utf8(bytes),
        beside_ascii(bytes, index),
    ensures
        is_char_boundary(bytes, index),
{
    lemma_ends_boundary(bytes);
    if 0 <= index < bytes.len() && bytes[index] <= ASCII_MAX {
        lemma_ascii_boundary(bytes, index);
    } else if 0 < index <= bytes.len() && bytes[index - 1] <= ASCII_MAX {
        lemma_ascii_boundary(bytes, index - 1);
    }
}

/// Both ends of valid UTF-8 text are character boundaries.
pub proof fn lemma_ends_boundary(bytes: Seq<u8>)
    requires
        valid_utf8(bytes),
    ensures
        is_char_boundary(bytes, 0),
        is_char_boundary(bytes, bytes.len() as int),
{
    is_char_boundary_start_end_of_seq(bytes);
}

/// Whether `bytes[from..to)` equals `other`.
pub fn range_eq(bytes: &[u8], from: usize, to: usize, other: &[u8]) -> (same: bool)
    requires
        from <= to <= bytes@.len(),
    ensures
        same == (bytes@.subrange(from as int, to as int) == other@),
{
    let n: usize = to - from;
    if other.len() != n {
        return false;
    }
    let ghost window = bytes@.subrange(from as int, to as int);
    let mut i: usize = 0;
    while i < n
        invariant
            from <= to <= bytes@.len(),
            n == to - from,
            other@.len() == n,
            i <= n,
            window == bytes@.subrange(from as int, to as int),
            forall|k: int| 0 <= k < i ==> window[k] == other@[k],
        decreases n - i,
    {
        if bytes[from + i] != other[i] {
            assert(window[i as int] != other@[i as int]);
            return false;
        }
        i += 1;
    }
    assert(window =~= other@);
    true
}

/// Whether `bytes` is the one byte `byte`.
pub fn is_byte(bytes: &[u8], byte: u8) -> (same: bool)
    ensures
        same == (bytes@ == seq![byte]),
{
    if bytes.len() == 1 && bytes[0] == byte {
        assert(bytes@ =~= seq![byte]);
        true
    } else {
        assert(bytes@ != seq![byte]) by {
            if bytes@.len() == 1 {
                assert(seq![byte][0] == byte);
            }
        }
        false
    }
}

/// Whether `bytes` is the byte `first` followed by the byte `second`.
pub fn is_byte_pair(bytes: &[u8], first: u8, second: u8) -> (same: bool)
    ensures
        same == (bytes@ == seq![first, second]),
{
    if bytes.len() == 2 && bytes[0] == first && bytes[1] == second {
        assert(bytes@ =~= seq![first, second]);
        true
    } else {
        assert(bytes@ != seq![first, second]) by {
            let pair = seq![first, second];
            if bytes@.len() == 2 {
                assert(pair[0] == first && pair[1] == second);
            }
        }
        false
    }
}

/// What comes before the first `sep` in `bytes`; all of `bytes` if it holds none.
pub open spec fn head_of(bytes: Seq<u8>, sep: u8) -> Seq<u8> {
    bytes.subrange(0, find_byte(bytes, 0, bytes.len() as int, sep))
}

/// What comes after the first `sep` in `bytes`, if it holds one.
pub open spec fn tail_of(bytes: Seq<u8>, sep: u8) -> Option<Seq<u8>> {
    let pos = find_byte(bytes, 0, bytes.len() as int, sep);
    if pos < bytes.len() {
        Some(bytes.subrange(pos + 1, bytes.len() as int))
    } else {
        None
    }
}

/// What comes after the first `sep` in `bytes`; nothing if it holds none.
pub open spec fn tail_or_empty(bytes: Seq<u8>, sep: u8) -> Seq<u8> {
    match tail_of(bytes, sep) {
        Some(tail) => tail,
        None => Seq::empty(),
    }
}

/// The tail is shorter than the whole, and where there is no tail the head is the whole.
pub proof fn lemma_tail_shorter(bytes: Seq<u8>, sep: u8)
    ensures
        tail_of(bytes, sep) matches Some(tail) ==> tail.len() < bytes.len(),
        head_of(bytes, sep).len() <= bytes.len(),
        tail_of(bytes, sep) is None ==> head_of(bytes, sep) == bytes,
{
    lemma_find_byte(bytes, 0, bytes.len() as int, sep);
    if tail_of(bytes, sep) is None {
        assert(head_of(bytes, sep) =~= bytes);
    }
}

/// Where `first` is followed by `sep` and `second`, the first `sep` of the whole is the first
/// of `first`, or else the one that follows `first`.
pub proof fn lemma_split_joined(first: Seq<u8>, second: Seq<u8>, sep: u8)
    ensures
        head_of(first + seq![sep] + second, sep) == head_of(first, sep),
        tail_of(first + seq![sep] + second, sep) == match tail_of(first, sep) {
            Some(tail) => Some(tail + seq![sep] + second),
            None => Some(second),
        },
{
    let whole = first + seq![sep] + second;
    lemma_find_byte(first, 0, first.len() as int, sep);
    lemma_find_byte(whole, 0, whole.len() as int, sep);
    let at = find_byte(first, 0, first.len() as int, sep);
    let found = find_byte(whole, 0, whole.len() as int, sep);
    assert(whole[first.len() as int] == sep);
    assert forall|i: int| 0 <= i < first.len() implies whole[i] == first[i] by {}
    assert(found == at) by {
        if found < at {
            assert(first[found] == whole[found]);
        } else if at < found {
            assert(whole[at] == sep);
        }
    }
    assert(head_of(whole, sep) =~= head_of(first, sep));
    match tail_of(first, sep) {
        Some(tail) => {
            assert(whole.subrange(found + 1, whole.len() as int) =~= tail + seq![sep] + second);
        },
        None => {
            assert(whole.subrange(found + 1, whole.len() as int) =~= second);
        },
    }
}

/// The pieces of `bytes` between occurrences of `sep`, in order. There is always one piece.
pub open spec fn pieces(bytes: Seq<u8>, sep: u8) -> Seq<Seq<u8>>
    decreases bytes.len(),
{
    match tail_of(bytes, sep) {
        Some(tail) => {
            proof {
                lemma_tail_shorter(bytes, sep);
            }
            seq![head_of(bytes, sep)] + pieces(tail, sep)
        },
        None => seq![bytes],
    }
}

/// Splits `text` at the first occurrence of the ASCII byte `sep`.
pub fn split_first<'a>(text: &'a str, sep: u8) -> (parts: (&'a str, Option<&'a str>))
    requires
        sep <= ASCII_MAX,
    ensures
        parts.0.spec_bytes() == head_of(text.spec_bytes(), sep),
        match parts.1 {
            Some(tail) => tail_of(text.spec_bytes(), sep) == Some(tail.spec_bytes()),
            None => tail_of(text.spec_bytes(), sep) is None,
        },
{
    let bytes = text.as_bytes();
    let len = bytes.len();
    let pos = index_of(bytes, 0, len, sep);
    proof {
        broadcast use encode_utf8_valid_utf8;

        lemma_find_byte(bytes@, 0, len as int, sep);
        lemma_ends_boundary(bytes@);
        lemma_beside_ascii(bytes@, pos as int);
    }
    let head = slice_str(text, 0, pos);
    if pos < len {
        proof {
            lemma_beside_ascii(bytes@, pos + 1);
        }
        (head, Some(slice_str(text, pos + 1, len)))
    } else {
        (head, None)
    }
}

/// The bytes of two texts, one after the other, are the bytes of the one followed by those of
/// the other.
pub proof fn lemma_encode_concat(first: Seq<char>, second: Seq<char>)
    ensures
        encode_utf8(first + second) == encode_utf8(first) + encode_utf8(second),
    decreases first.len(),
{
    if first.len() == 0 {
        assert(first + second =~= second);
        assert(encode_utf8(first) + encode_utf8(second) =~= encode_utf8(second));
    } else {
        let whole = first + second;
        assert(whole.drop_first() =~= first.drop_first() + second);
        assert(whole[0] == first[0]);
        lemma_encode_concat(first.drop_first(), second);
        assert(encode_utf8(whole) =~= encode_utf8(first) + encode_utf8(second));
    }
}

/// Appends `piece` to `out`.
pub fn push_text(out: &mut String, piece: &str)
    ensures
        string_bytes(*final(out)) == string_bytes(*old(out)) + piece.spec_bytes(),
{
    proof {
        lemma_encode_concat(out@, piece@);
    }
    out.append(piece);
}

/// The bytes of each text, in order.
pub open spec fn texts_bytes(texts: Seq<&str>) -> Seq<Seq<u8>> {
    texts.map_values(|text: &str| text.spec_bytes())
}

/// Splits `text` at every occurrence of the ASCII byte `sep`.
pub fn split_all<'a>(text: &'a str, sep: u8) -> (parts: Vec<&'a str>)
    requires
        sep <= ASCII_MAX,
    ensures
        texts_bytes(parts@) == pieces(text.spec_bytes(), sep),
{
    let mut parts: Vec<&'a str> = Vec::new();
    let mut rest: &'a str = text;
    let ghost total = pieces(text.spec_bytes(), sep);
    assert(texts_bytes(parts@) =~= Seq::<Seq<u8>>::empty());
    assert(texts_bytes(parts@) + pieces(rest.spec_bytes(), sep) =~= total);
    loop
        invariant_except_break
            texts_bytes(parts@) + pieces(rest.spec_bytes(), sep) == total,
        invariant
            sep <= ASCII_MAX,
            total == pieces(text.spec_bytes(), sep),
        ensures
            texts_bytes(parts@) == total,
        decreases rest.spec_bytes().len(),
    {
        let (head, tail) = split_first(rest, sep);
        let ghost before = parts@;
        proof {
            lemma_tail_shorter(rest.spec_bytes(), sep);
        }
        match tail {
            Some(tail) => {
                parts.push(head);
                assert(texts_bytes(parts@) =~= texts_bytes(before) + seq![head.spec_bytes()]);
                assert(texts_bytes(parts@) + pieces(tail.spec_bytes(), sep) =~= texts_bytes(before)
                    + (seq![head.spec_bytes()] + pieces(tail.spec_bytes(), sep)));
                rest = tail;
            },
            None => {
                parts.push(rest);
                assert(texts_bytes(parts@) =~= texts_bytes(before) + seq![rest.spec_bytes()]);
                break ;
            },
        }
    }
    parts
}

} // verus!
