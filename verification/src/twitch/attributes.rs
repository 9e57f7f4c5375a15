//! Tag values that hold lists: entries that pair one reference with attributes.
//!
//! A value is split into entries; an entry into the text of its reference and the text of its
//! attributes; the latter into attributes. An entry whose reference cannot be decoded is left
//! out, and so is an attribute that cannot be decoded; what remains keeps its order.

use crate::ascii::{ASCII_MAX, HYPHEN};
use crate::error::ParseError;
use crate::parse::FromText;
use crate::text::{
    head_of, lemma_split_joined, lemma_tail_shorter, pieces, split_first, string_bytes, tail_of,
    tail_or_empty,
};
use core::ops::Range;
use vstd::prelude::*;
use vstd::std_specs::convert::FromSpecImpl;
use vstd::string::StringSliceAdditionalSpecFns;

verus! {

/// The separators of one kind of list. Each is an ASCII byte; a list cannot be separated by
/// any other character.
#[derive(Debug, Clone, Copy, PartialEq, Eq, Hash, Structural)]
pub struct SeparatorInfo {
    /// Separator between attributions.
    pub attribution_separator: u8,
    /// Separator between the reference and the attributes.
    pub range_attribute_separator: u8,
    /// Separator between attributes.
    pub attribute_separator: u8,
}

impl SeparatorInfo {
    /// Whether each separator is an ASCII byte.
    pub open spec fn is_ascii(self) -> bool {
        &&& self.attribution_separator <= ASCII_MAX
        &&& self.range_attribute_separator <= ASCII_MAX
        &&& self.attribute_separator <= ASCII_MAX
    }
}

/// A half-open range of character positions in the text of a message.
#[derive(Debug, Clone, Copy, PartialEq, Eq, Hash, Default, Structural)]
pub struct MsgRange {
    /// The position of the first character.
    pub start: u16,
    /// The position after the last character.
    pub end: u16,
}

impl View for MsgRange {
    type V = MsgRange;

    open spec fn view(&self) -> MsgRange {
        *self
    }
}

impl From<Range<u16>> for MsgRange {
    fn from(range: Range<u16>) -> (made: MsgRange) {
        MsgRange { start: range.start, end: range.end }
    }
}

/// A range of the standard library becomes the range with the same ends.
impl FromSpecImpl<Range<u16>> for MsgRange {
    open spec fn obeys_from_spec() -> bool {
        true
    }

    open spec fn from_spec(range: Range<u16>) -> MsgRange {
        MsgRange { start: range.start, end: range.end }
    }
}

/// The range that `start-end` denotes: two numbers around the first `-`.
pub open spec fn parse_range(text: Seq<u8>) -> Result<MsgRange, ParseError> {
    match tail_of(text, HYPHEN) {
        None => Err(ParseError::InvalidRange),
        Some(tail) => match u16::decoded(head_of(text, HYPHEN)) {
            Err(e) => Err(e),
            Ok(start) => match u16::decoded(tail) {
                Err(e) => Err(e),
                Ok(end) => Ok(MsgRange { start, end }),
            },
        },
    }
}

impl MsgRange {
    /// The range from `start` up to `end`.
    pub fn new(start: u16, end: u16) -> (range: MsgRange)
        ensures
            range == (MsgRange { start, end }),
    {
        MsgRange { start, end }
    }

    /// Decodes a range written as `start-end`.
    pub fn from_str(text: &str) -> (r: Result<MsgRange, ParseError>)
        ensures
            r == parse_range(text.spec_bytes()),
    {
        let (head, tail) = split_first(text, HYPHEN);
        match tail {
            None => Err(ParseError::InvalidRange),
            Some(tail) => match u16::from_text(head) {
                Err(e) => Err(e),
                Ok(start) => match u16::from_text(tail) {
                    Err(e) => Err(e),
                    Ok(end) => Ok(MsgRange { start, end }),
                },
            },
        }
    }
}

impl FromText for MsgRange {
    open spec fn decoded(text: Seq<u8>) -> Result<MsgRange, ParseError> {
        parse_range(text)
    }

    fn from_text(text: &str) -> (r: Result<MsgRange, ParseError>) {
        MsgRange::from_str(text)
    }
}

/// Splits a text into a pair of texts at the first occurrence of a separator: what comes
/// before it, and what comes after it. If the separator is not found, the whole text is the
/// first of the pair and the second is empty. A byte that is not ASCII separates no text, and
/// gives no pair.
pub fn split_pair(input: &str, sep: u8) -> (pair: Option<(String, String)>)
    ensures
        match pair {
            Some(pair) => sep <= ASCII_MAX && string_bytes(pair.0) == head_of(
                input.spec_bytes(),
                sep,
            ) && string_bytes(pair.1) == tail_or_empty(input.spec_bytes(), sep),
            None => sep > ASCII_MAX,
        },
{
    if sep > ASCII_MAX {
        return None;
    }
    let (head, tail) = split_first(input, sep);
    let right = match tail {
        Some(tail) => tail.to_owned(),
        None => String::new(),
    };
    Some((head.to_owned(), right))
}

/// The views of decoded values.
pub open spec fn views<T: View>(values: Seq<T>) -> Seq<T::V> {
    values.map_values(|value: T| value@)
}

/// The view of an optional value.
pub open spec fn option_view<T: View>(value: Option<T>) -> Option<T::V> {
    match value {
        Some(value) => Some(value@),
        None => None,
    }
}

/// The attributes that `text` lists between occurrences of `sep`: those that can be decoded.
pub open spec fn attributes_of<Attr: FromText>(text: Seq<u8>, sep: u8) -> Seq<Attr::V>
    decreases text.len(),
{
    let rest = match tail_of(text, sep) {
        Some(tail) => {
            proof {
                lemma_tail_shorter(text, sep);
            }
            attributes_of::<Attr>(tail, sep)
        },
        None => Seq::empty(),
    };
    match Attr::decoded(head_of(text, sep)) {
        Ok(attribute) => seq![attribute] + rest,
        Err(_) => rest,
    }
}

/// One entry of a list: a reference of type `Ref` with attributes of type `Attr`.
///
/// The separators of a list are single ASCII bytes, as they are in every list that the
/// protocol defines: no other character can be chosen. Text is split at the bytes of its
/// UTF-8 form, and only at an ASCII byte is each side of the split a text again.
pub trait Attribution<Ref: FromText, Attr: FromText>: View + Sized {
    /// The entry that holds `reference` and `attributes`.
    spec fn built(reference: Ref::V, attributes: Seq<Attr::V>) -> Self::V;

    /// The separators of this kind of list.
    spec fn separators() -> SeparatorInfo;

    /// What the text of one entry decodes to, if it is one.
    spec fn entry(item: Seq<u8>) -> Option<Self::V>;

    /// Makes an entry of a reference and its attributes.
    fn new(reference: Ref, attributes: Vec<Attr>) -> (made: Self)
        ensures
            made@ == Self::built(reference@, views(attributes@)),
    ;

    /// The separators by which a list of this kind is taken apart.
    fn get_separator_info() -> (info: SeparatorInfo)
        ensures
            info == Self::separators(),
            info.is_ascii(),
    ;

    /// Decodes one entry.
    fn parse(item: &str) -> (made: Option<Self>)
        ensures
            option_view(made) == Self::entry(item.spec_bytes()),
    ;

    /// The separator between the reference and the attributes.
    fn get_range_attribute_separator() -> (sep: u8)
        ensures
            sep == Self::separators().range_attribute_separator,
            sep <= ASCII_MAX,
    {
        Self::get_separator_info().range_attribute_separator
    }

    /// The separator between attributes.
    fn get_attribute_separator() -> (sep: u8)
        ensures
            sep == Self::separators().attribute_separator,
            sep <= ASCII_MAX,
    {
        Self::get_separator_info().attribute_separator
    }

    /// The separator between attributions.
    fn get_attribution_separator() -> (sep: u8)
        ensures
            sep == Self::separators().attribution_separator,
            sep <= ASCII_MAX,
    {
        Self::get_separator_info().attribution_separator
    }

    /// Decodes the attributes of one entry.
    fn parse_attributes(input: &str) -> (attributes: Vec<Attr>)
        ensures
            views(attributes@) == attributes_of::<Attr>(
                input.spec_bytes(),
                Self::separators().attribute_separator,
            ),
    {
        decode_attributes::<Attr>(input, Self::get_attribute_separator())
    }
}

/// Decodes the attributes that `input` lists between occurrences of the ASCII byte `sep`.
pub fn decode_attributes<Attr: FromText>(input: &str, sep: u8) -> (attributes: Vec<Attr>)
    requires
        sep <= ASCII_MAX,
    ensures
        views(attributes@) == attributes_of::<Attr>(input.spec_bytes(), sep),
{
    let mut attributes: Vec<Attr> = Vec::new();
    let mut rest: &str = input;
    let ghost total = attributes_of::<Attr>(input.spec_bytes(), sep);
    assert(views(attributes@) + attributes_of::<Attr>(rest.spec_bytes(), sep) =~= total);
    loop
        invariant_except_break
            views(attributes@) + attributes_of::<Attr>(rest.spec_bytes(), sep) == total,
        invariant
            sep <= ASCII_MAX,
            total == attributes_of::<Attr>(input.spec_bytes(), sep),
        ensures
            views(attributes@) == total,
        decreases rest.spec_bytes().len(),
    {
        let (head, tail) = split_first(rest, sep);
        let ghost before = attributes@;
        let ghost after = match tail_of(rest.spec_bytes(), sep) {
            Some(tail) => attributes_of::<Attr>(tail, sep),
            None => Seq::empty(),
        };
        proof {
            lemma_tail_shorter(rest.spec_bytes(), sep);
        }
        match Attr::from_text(head) {
            Ok(attribute) => {
                attributes.push(attribute);
                assert(views(attributes@) =~= views(before) + seq![attribute@]);
                assert(views(attributes@) + after =~= views(before) + (seq![attribute@] + after));
            },
            Err(_) => {},
        }
        match tail {
            Some(tail) => {
                rest = tail;
            },
            None => {
                assert(views(attributes@) + Seq::<Attr::V>::empty() =~= views(attributes@));
                break ;
            },
        }
    }
    attributes
}

/// The parts of one entry: the reference before the first separator, and the attributes after
/// it; nothing if the reference cannot be decoded.
pub open spec fn entry_parts<Ref: FromText, Attr: FromText>(item: Seq<u8>, seps: SeparatorInfo)
    -> Option<(Ref::V, Seq<Attr::V>)> {
    match Ref::decoded(head_of(item, seps.range_attribute_separator)) {
        Ok(reference) => Some(
            (
                reference,
                attributes_of::<Attr>(
                    tail_or_empty(item, seps.range_attribute_separator),
                    seps.attribute_separator,
                ),
            ),
        ),
        Err(_) => None,
    }
}

/// The views of the parts of an entry.
pub open spec fn parts_view<Ref: View, Attr: View>(parts: Option<(Ref, Vec<Attr>)>) -> Option<
    (Ref::V, Seq<Attr::V>),
> {
    match parts {
        Some((reference, attributes)) => Some((reference@, views(attributes@))),
        None => None,
    }
}

/// Decodes the parts of one entry: its reference, then its attributes.
pub fn decode_entry<Ref: FromText, Attr: FromText>(item: &str, seps: SeparatorInfo) -> (parts:
    Option<(Ref, Vec<Attr>)>)
    requires
        seps.is_ascii(),
    ensures
        parts_view(parts) == entry_parts::<Ref, Attr>(item.spec_bytes(), seps),
{
    match split_pair(item, seps.range_attribute_separator) {
        Some((left, right)) => match Ref::from_text(left.as_str()) {
            Ok(reference) => Some(
                (reference, decode_attributes::<Attr>(right.as_str(), seps.attribute_separator)),
            ),
            Err(_) => None,
        },
        None => None,
    }
}

/// The entries that `text` lists: those that can be decoded, in the order of the text.
pub open spec fn entries<Ref: FromText, Attr: FromText, T: Attribution<Ref, Attr>>(
    text: Seq<u8>,
) -> Seq<T::V>
    decreases text.len(),
{
    let sep = T::separators().attribution_separator;
    let rest = match tail_of(text, sep) {
        Some(tail) => {
            proof {
                lemma_tail_shorter(text, sep);
            }
            entries::<Ref, Attr, T>(tail)
        },
        None => Seq::empty(),
    };
    match T::entry(head_of(text, sep)) {
        Some(entry) => seq![entry] + rest,
        None => rest,
    }
}

/// Those of `items` that are something, in order.
pub open spec fn survivors<A>(items: Seq<Option<A>>) -> Seq<A>
    decreases items.len(),
{
    if items.len() == 0 {
        Seq::empty()
    } else {
        match items[0] {
            Some(item) => seq![item] + survivors(items.drop_first()),
            None => survivors(items.drop_first()),
        }
    }
}

/// The entries of a text are its pieces between separators, each decoded on its own, less
/// those that are no entry.
pub proof fn lemma_entries_are_decoded_pieces<
    Ref: FromText,
    Attr: FromText,
    T: Attribution<Ref, Attr>,
>(text: Seq<u8>)
    ensures
        entries::<Ref, Attr, T>(text) == survivors(
            pieces(text, T::separators().attribution_separator).map_values(
                |piece: Seq<u8>| T::entry(piece),
            ),
        ),
    decreases text.len(),
{
    let sep = T::separators().attribution_separator;
    let decode = |piece: Seq<u8>| T::entry(piece);
    let decoded = pieces(text, sep).map_values(decode);
    lemma_tail_shorter(text, sep);
    match tail_of(text, sep) {
        Some(tail) => {
            lemma_entries_are_decoded_pieces::<Ref, Attr, T>(tail);
            assert(decoded.drop_first() =~= pieces(tail, sep).map_values(decode));
        },
        None => {
            assert(decoded.drop_first() =~= Seq::<Option<T::V>>::empty());
            assert(survivors(decoded.drop_first()) =~= Seq::<T::V>::empty());
            match T::entry(text) {
                Some(entry) => {
                    assert(seq![entry] + Seq::<T::V>::empty() =~= seq![entry]);
                },
                None => {},
            }
        },
    }
}

/// The attributes of a text are its pieces between separators, each decoded on its own, less
/// those that are no attribute.
pub proof fn lemma_attributes_are_decoded_pieces<Attr: FromText>(text: Seq<u8>, sep: u8)
    ensures
        attributes_of::<Attr>(text, sep) == survivors(
            pieces(text, sep).map_values(
                |piece: Seq<u8>|
                    match Attr::decoded(piece) {
                        Ok(attribute) => Some(attribute),
                        Err(_) => None,
                    },
            ),
        ),
    decreases text.len(),
{
    let decode = |piece: Seq<u8>|
        match Attr::decoded(piece) {
            Ok(attribute) => Some(attribute),
            Err(_) => None,
        };
    let decoded = pieces(text, sep).map_values(decode);
    lemma_tail_shorter(text, sep);
    match tail_of(text, sep) {
        Some(tail) => {
            lemma_attributes_are_decoded_pieces::<Attr>(tail, sep);
            assert(decoded.drop_first() =~= pieces(tail, sep).map_values(decode));
        },
        None => {
            assert(decoded.drop_first() =~= Seq::<Option<Attr::V>>::empty());
            assert(survivors(decoded.drop_first()) =~= Seq::<Attr::V>::empty());
            match Attr::decoded(text) {
                Ok(attribute) => {
                    assert(seq![attribute] + Seq::<Attr::V>::empty() =~= seq![attribute]);
                },
                Err(_) => {},
            }
        },
    }
}

/// No entry hides another: the entries of two lists joined by the separator are the entries of
/// the first followed by the entries of the second, whatever either of them holds.
pub proof fn lemma_entries_of_joined<Ref: FromText, Attr: FromText, T: Attribution<Ref, Attr>>(
    first: Seq<u8>,
    second: Seq<u8>,
)
    ensures
        entries::<Ref, Attr, T>(first + seq![T::separators().attribution_separator] + second)
            == entries::<Ref, Attr, T>(first) + entries::<Ref, Attr, T>(second),
    decreases first.len(),
{
    let sep = T::separators().attribution_separator;
    let whole = first + seq![sep] + second;
    lemma_split_joined(first, second, sep);
    lemma_tail_shorter(first, sep);
    let rest = match tail_of(first, sep) {
        Some(tail) => {
            lemma_entries_of_joined::<Ref, Attr, T>(tail, second);
            entries::<Ref, Attr, T>(tail)
        },
        None => Seq::empty(),
    };
    let after = rest + entries::<Ref, Attr, T>(second);
    assert(tail_of(whole, sep) matches Some(tail) && entries::<Ref, Attr, T>(tail) =~= after);
    match T::entry(head_of(first, sep)) {
        Some(entry) => {
            assert(seq![entry] + after =~= (seq![entry] + rest) + entries::<Ref, Attr, T>(second));
        },
        None => {},
    }
}

/// No attribute hides another: the attributes of two lists joined by the separator are the
/// attributes of the first followed by the attributes of the second.
pub proof fn lemma_attributes_of_joined<Attr: FromText>(first: Seq<u8>, second: Seq<u8>, sep: u8)
    ensures
        attributes_of::<Attr>(first + seq![sep] + second, sep) == attributes_of::<Attr>(first, sep)
            + attributes_of::<Attr>(second, sep),
    decreases first.len(),
{
    let whole = first + seq![sep] + second;
    lemma_split_joined(first, second, sep);
    lemma_tail_shorter(first, sep);
    let rest = match tail_of(first, sep) {
        Some(tail) => {
            lemma_attributes_of_joined::<Attr>(tail, second, sep);
            attributes_of::<Attr>(tail, sep)
        },
        None => Seq::empty(),
    };
    let after = rest + attributes_of::<Attr>(second, sep);
    assert(tail_of(whole, sep) matches Some(tail) && attributes_of::<Attr>(tail, sep) =~= after);
    match Attr::decoded(head_of(first, sep)) {
        Ok(attribute) => {
            assert(seq![attribute] + after =~= (seq![attribute] + rest) + attributes_of::<Attr>(
                second,
                sep,
            ));
        },
        Err(_) => {},
    }
}

/// The entries of one tag value.
#[derive(Debug, PartialEq, Eq, Hash, Default)]
pub struct AttributionVec<Ref: FromText, Attr: FromText, T: Attribution<Ref, Attr>> {
    element: Vec<T>,
    _phantom_data: core::marker::PhantomData<Ref>,
    _phantom_data_2: core::marker::PhantomData<Attr>,
}

impl<Ref: FromText, Attr: FromText, T: Attribution<Ref, Attr>> View for AttributionVec<
    Ref,
    Attr,
    T,
> {
    type V = Seq<T::V>;

    closed spec fn view(&self) -> Seq<T::V> {
        views(self.element@)
    }
}

impl<Ref, Attr, T> From<Vec<T>> for AttributionVec<Ref, Attr, T> where
    Ref: FromText,
    Attr: FromText,
    T: Attribution<Ref, Attr>,
 {
    fn from(v: Vec<T>) -> (list: Self)
        ensures
            list@ == views(v@),
    {
        AttributionVec {
            element: v,
            _phantom_data: core::marker::PhantomData,
            _phantom_data_2: core::marker::PhantomData,
        }
    }
}

/// A list made of entries holds those entries.
impl<Ref, Attr, T> FromSpecImpl<Vec<T>> for AttributionVec<Ref, Attr, T> where
    Ref: FromText,
    Attr: FromText,
    T: Attribution<Ref, Attr>,
 {
    open spec fn obeys_from_spec() -> bool {
        true
    }

    closed spec fn from_spec(v: Vec<T>) -> Self {
        AttributionVec {
            element: v,
            _phantom_data: core::marker::PhantomData,
            _phantom_data_2: core::marker::PhantomData,
        }
    }
}

impl<Ref: FromText, Attr: FromText, T: Attribution<Ref, Attr>> core::ops::Deref for AttributionVec<
    Ref,
    Attr,
    T,
> {
    type Target = Vec<T>;

    /// The entries, in order.
    fn deref(&self) -> (items: &Vec<T>)
        ensures
            views(items@) == self@,
    {
        &self.element
    }
}

impl<Ref: FromText, Attr: FromText, T: Attribution<Ref, Attr>> AttributionVec<Ref, Attr, T> {
    /// The list that holds `element`.
    pub fn new(element: Vec<T>) -> (list: Self)
        ensures
            list@ == views(element@),
    {
        AttributionVec {
            element,
            _phantom_data: core::marker::PhantomData,
            _phantom_data_2: core::marker::PhantomData,
        }
    }

    /// Decodes a tag value. Entries that cannot be decoded are left out, so this never fails.
    pub fn from_str(s: &str) -> (r: Result<Self, ()>)
        ensures
            r matches Ok(list) && list@ == entries::<Ref, Attr, T>(s.spec_bytes()),
    {
        let sep = T::get_attribution_separator();
        let mut element: Vec<T> = Vec::new();
        let mut rest: &str = s;
        let ghost total = entries::<Ref, Attr, T>(s.spec_bytes());
        assert(views(element@) + entries::<Ref, Attr, T>(rest.spec_bytes()) =~= total);
        loop
            invariant_except_break
                views(element@) + entries::<Ref, Attr, T>(rest.spec_bytes()) == total,
            invariant
                sep <= ASCII_MAX,
                sep == T::separators().attribution_separator,
                total == entries::<Ref, Attr, T>(s.spec_bytes()),
            ensures
                views(element@) == total,
            decreases rest.spec_bytes().len(),
        {
            let (head, tail) = split_first(rest, sep);
            let ghost before = element@;
            let ghost after = match tail_of(rest.spec_bytes(), sep) {
                Some(tail) => entries::<Ref, Attr, T>(tail),
                None => Seq::empty(),
            };
            proof {
                lemma_tail_shorter(rest.spec_bytes(), sep);
            }
            match T::parse(head) {
                Some(entry) => {
                    element.push(entry);
                    assert(views(element@) =~= views(before) + seq![entry@]);
                    assert(views(element@) + after =~= views(before) + (seq![entry@] + after));
                },
                None => {},
            }
            match tail {
                Some(tail) => {
                    rest = tail;
                },
                None => {
                    assert(views(element@) + Seq::<T::V>::empty() =~= views(element@));
                    break ;
                },
            }
        }
        Ok(Self::new(element))
    }

    /// The number of entries.
    pub fn len(&self) -> (n: usize)
        ensures
            n == self@.len(),
    {
        self.element.len()
    }

    /// Whether there is no entry.
    pub fn is_empty(&self) -> (empty: bool)
        ensures
            empty == (self@.len() == 0),
    {
        self.element.len() == 0
    }

    /// The entries, in order.
    pub fn as_slice(&self) -> (items: &[T])
        ensures
            views(items@) == self@,
    {
        self.element.as_slice()
    }

    /// The entries, in order.
    pub fn into_vec(self) -> (items: Vec<T>)
        ensures
            views(items@) == self@,
    {
        self.element
    }
}

} // verus!
