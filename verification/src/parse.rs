//! Decoding a typed value from the text of a tag or of a list entry.

use crate::ascii::{ONE, ZERO};
use crate::error::ParseError;
use crate::num::{parse_bounded_in, parse_u64_in, parse_unsigned};
use crate::text::is_byte;
use vstd::prelude::*;
use vstd::string::StringSliceAdditionalSpecFns;

verus! {

/// The view of a decoded value, or the error.
pub open spec fn result_view<T: View>(r: Result<T, ParseError>) -> Result<T::V, ParseError> {
    match r {
        Ok(value) => Ok(value@),
        Err(e) => Err(e),
    }
}

/// A type whose values are decoded from text.
pub trait FromText: View + Sized {
    /// What the bytes of a text decode to.
    spec fn decoded(text: Seq<u8>) -> Result<Self::V, ParseError>;

    /// Decodes `text`.
    fn from_text(text: &str) -> (r: Result<Self, ParseError>)
        ensures
            result_view(r) == Self::decoded(text.spec_bytes()),
    ;
}

/// A decimal number as a `nat`, narrowed to the integer type that holds it.
pub open spec fn narrowed<T>(r: Result<nat, ParseError>, narrow: spec_fn(nat) -> T) -> Result<
    T,
    ParseError,
> {
    match r {
        Ok(value) => Ok(narrow(value)),
        Err(e) => Err(e),
    }
}

impl FromText for u64 {
    open spec fn decoded(text: Seq<u8>) -> Result<u64, ParseError> {
        narrowed(parse_unsigned(text, u64::MAX as nat), |n: nat| n as u64)
    }

    fn from_text(text: &str) -> (r: Result<u64, ParseError>) {
        let bytes = text.as_bytes();
        assert(bytes@.subrange(0, bytes@.len() as int) =~= bytes@);
        parse_u64_in(bytes, 0, bytes.len())
    }
}

impl FromText for u32 {
    open spec fn decoded(text: Seq<u8>) -> Result<u32, ParseError> {
        narrowed(parse_unsigned(text, u32::MAX as nat), |n: nat| n as u32)
    }

    fn from_text(text: &str) -> (r: Result<u32, ParseError>) {
        let bytes = text.as_bytes();
        assert(bytes@.subrange(0, bytes@.len() as int) =~= bytes@);
        match parse_bounded_in(bytes, 0, bytes.len(), 0xffff_ffff) {
            Ok(value) => Ok(value as u32),
            Err(e) => Err(e),
        }
    }
}

impl FromText for u16 {
    open spec fn decoded(text: Seq<u8>) -> Result<u16, ParseError> {
        narrowed(parse_unsigned(text, u16::MAX as nat), |n: nat| n as u16)
    }

    fn from_text(text: &str) -> (r: Result<u16, ParseError>) {
        let bytes = text.as_bytes();
        assert(bytes@.subrange(0, bytes@.len() as int) =~= bytes@);
        match parse_bounded_in(bytes, 0, bytes.len(), 0xffff) {
            Ok(value) => Ok(value as u16),
            Err(e) => Err(e),
        }
    }
}

impl FromText for u8 {
    open spec fn decoded(text: Seq<u8>) -> Result<u8, ParseError> {
        narrowed(parse_unsigned(text, u8::MAX as nat), |n: nat| n as u8)
    }

    fn from_text(text: &str) -> (r: Result<u8, ParseError>) {
        let bytes = text.as_bytes();
        assert(bytes@.subrange(0, bytes@.len() as int) =~= bytes@);
        match parse_bounded_in(bytes, 0, bytes.len(), 0xff) {
            Ok(value) => Ok(value as u8),
            Err(e) => Err(e),
        }
    }
}

impl FromText for usize {
    open spec fn decoded(text: Seq<u8>) -> Result<usize, ParseError> {
        narrowed(parse_unsigned(text, usize::MAX as nat), |n: nat| n as usize)
    }

    fn from_text(text: &str) -> (r: Result<usize, ParseError>) {
        let bytes = text.as_bytes();
        assert(bytes@.subrange(0, bytes@.len() as int) =~= bytes@);
        match parse_bounded_in(bytes, 0, bytes.len(), usize::MAX as u64) {
            Ok(value) => Ok(value as usize),
            Err(e) => Err(e),
        }
    }
}

/// The flag that a text denotes: `1` is true and `0` is false.
pub open spec fn parse_flag(text: Seq<u8>) -> Result<bool, ParseError> {
    if text == seq![ONE] {
        Ok(true)
    } else if text == seq![ZERO] {
        Ok(false)
    } else {
        Err(ParseError::InvalidBool)
    }
}

impl FromText for bool {
    open spec fn decoded(text: Seq<u8>) -> Result<bool, ParseError> {
        parse_flag(text)
    }

    fn from_text(text: &str) -> (r: Result<bool, ParseError>) {
        let bytes = text.as_bytes();
        if is_byte(bytes, ONE) {
            Ok(true)
        } else if is_byte(bytes, ZERO) {
            Ok(false)
        } else {
            Err(ParseError::InvalidBool)
        }
    }
}

} // verus!
