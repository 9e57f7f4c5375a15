//! Decimal numbers, decoded as the integer types of the standard library decode them:
//! an optional `+`, then one or more ASCII digits.

use crate::ascii::{NINE, PLUS, ZERO};
use crate::error::ParseError;
use vstd::prelude::*;

verus! {

/// Whether `byte` is an ASCII decimal digit.
pub open spec fn is_digit(byte: u8) -> bool {
    ZERO <= byte <= NINE
}

/// Whether every byte of `text` is an ASCII decimal digit.
pub open spec fn all_digits(text: Seq<u8>) -> bool {
    forall|i: int| 0 <= i < text.len() ==> is_digit(#[trigger] text[i])
}

/// The number that the digits of `text` denote, most significant first.
pub open spec fn decimal_value(text: Seq<u8>) -> nat
    decreases text.len(),
{
    if text.len() == 0 {
        0
    } else {
        decimal_value(text.drop_last()) * 10 + (text.last() - ZERO) as nat
    }
}

/// `text` without one leading `+`, if it has one.
pub open spec fn unsigned_digits(text: Seq<u8>) -> Seq<u8> {
    if text.len() > 0 && text[0] == PLUS {
        text.subrange(1, text.len() as int)
    } else {
        text
    }
}

/// The unsigned number that `text` denotes, if it is one and does not exceed `max`.
pub open spec fn parse_unsigned(text: Seq<u8>, max: nat) -> Result<nat, ParseError> {
    let digits = unsigned_digits(text);
    if text.len() == 0 {
        Err(ParseError::Empty)
    } else if digits.len() == 0 || !all_digits(digits) {
        Err(ParseError::InvalidDigit)
    } else if decimal_value(digits) > max {
        Err(ParseError::Overflow)
    } else {
        Ok(decimal_value(digits))
    }
}

/// Decodes `bytes[from..to)` as a `u64`.
pub fn parse_u64_in(bytes: &[u8], from: usize, to: usize) -> (r: Result<u64, ParseError>)
    requires
        from <= to <= bytes@.len(),
    ensures
        match r {
            Ok(v) => parse_unsigned(bytes@.subrange(from as int, to as int), u64::MAX as nat)
                == Ok::<nat, ParseError>(v as nat),
            Err(e) => parse_unsigned(bytes@.subrange(from as int, to as int), u64::MAX as nat)
                == Err::<nat, ParseError>(e),
        },
{
    let ghost text = bytes@.subrange(from as int, to as int);
    if from == to {
        return Err(ParseError::Empty);
    }
    let start: usize = if bytes[from] == PLUS {
        from + 1
    } else {
        from
    };
    assert(text[0] == bytes@[from as int]);
    let ghost digits = unsigned_digits(text);
    assert(digits =~= bytes@.subrange(start as int, to as int));
    if start == to {
        return Err(ParseError::InvalidDigit);
    }
    let mut acc: u64 = 0;
    let mut overflow = false;
    let mut i: usize = start;
    assert(digits.subrange(0, 0) =~= Seq::<u8>::empty());
    while i < to
        invariant
            from <= start <= i <= to <= bytes@.len(),
            start < to,
            text == bytes@.subrange(from as int, to as int),
            digits == unsigned_digits(text),
            digits == bytes@.subrange(start as int, to as int),
            all_digits(digits.subrange(0, i - start)),
            !overflow ==> acc == decimal_value(digits.subrange(0, i - start)),
            overflow ==> decimal_value(digits.subrange(0, i - start)) > u64::MAX,
        decreases to - i,
    {
        let b = bytes[i];
        let ghost shorter = digits.subrange(0, i - start);
        let ghost longer = digits.subrange(0, i + 1 - start);
        assert(longer.drop_last() =~= shorter);
        assert(longer.last() == b);
        if b < ZERO || b > NINE {
            assert(!is_digit(digits[i - start]));
            return Err(ParseError::InvalidDigit);
        }
        assert(all_digits(longer)) by {
            assert forall|k: int| 0 <= k < longer.len() implies is_digit(#[trigger] longer[k]) by {
                if k < shorter.len() {
                    assert(longer[k] == shorter[k]);
                }
            }
        }
        let d: u64 = (b - ZERO) as u64;
        if !overflow {
            if acc > (u64::MAX - d) / 10 {
                overflow = true;
            } else {
                acc = acc * 10 + d;
            }
        }
        i += 1;
    }
    assert(digits.subrange(0, i - start) =~= digits);
    if overflow {
        Err(ParseError::Overflow)
    } else {
        Ok(acc)
    }
}

/// Decodes `bytes[from..to)` as a number that does not exceed `max`.
pub fn parse_bounded_in(bytes: &[u8], from: usize, to: usize, max: u64) -> (r: Result<
    u64,
    ParseError,
>)
    requires
        from <= to <= bytes@.len(),
    ensures
        match r {
            Ok(v) => parse_unsigned(bytes@.subrange(from as int, to as int), max as nat) == Ok::<
                nat,
                ParseError,
            >(v as nat),
            Err(e) => parse_unsigned(bytes@.subrange(from as int, to as int), max as nat) == Err::<
                nat,
                ParseError,
            >(e),
        },
{
    match parse_u64_in(bytes, from, to) {
        Ok(v) => if v <= max {
            Ok(v)
        } else {
            Err(ParseError::Overflow)
        },
        Err(e) => Err(e),
    }
}

} // verus!
