//! The ASCII bytes that the grammar of the protocol is written in.

use vstd::prelude::*;

verus! {

/// The largest ASCII byte.
pub const ASCII_MAX: u8 = 0x7f;

/// The byte `NUL`.
pub const NUL: u8 = 0x00;

/// The byte that frames a CTCP payload.
pub const START_OF_HEADING: u8 = 0x01;

/// A horizontal tab, the first of the white space below the space.
pub const TAB: u8 = 0x09;

/// A line feed.
pub const LINE_FEED: u8 = 0x0a;

/// A carriage return, the last of the white space below the space.
pub const CARRIAGE_RETURN: u8 = 0x0d;

/// A space.
pub const SPACE: u8 = 0x20;

/// The byte `!`.
pub const EXCLAMATION: u8 = 0x21;

/// The byte `#`.
pub const HASH: u8 = 0x23;

/// The byte `+`.
pub const PLUS: u8 = 0x2b;

/// The byte `,`.
pub const COMMA: u8 = 0x2c;

/// The byte `-`.
pub const HYPHEN: u8 = 0x2d;

/// The byte `.`.
pub const PERIOD: u8 = 0x2e;

/// The byte `/`.
pub const SLASH: u8 = 0x2f;

/// The digit `0`.
pub const ZERO: u8 = 0x30;

/// The digit `1`.
pub const ONE: u8 = 0x31;

/// The digit `9`.
pub const NINE: u8 = 0x39;

/// The byte `:`.
pub const COLON: u8 = 0x3a;

/// The byte `;`.
pub const SEMICOLON: u8 = 0x3b;

/// The byte `=`.
pub const EQUALS: u8 = 0x3d;

/// The byte `@`.
pub const AT: u8 = 0x40;

/// The letter `A`.
pub const UPPER_A: u8 = 0x41;

/// The letter `F`.
pub const UPPER_F: u8 = 0x46;

/// The letter `I`.
pub const UPPER_I: u8 = 0x49;

/// The letter `P`.
pub const UPPER_P: u8 = 0x50;

/// The letter `S`.
pub const UPPER_S: u8 = 0x53;

/// The byte `\`.
pub const BACKSLASH: u8 = 0x5c;

/// The letter `a`.
pub const LOWER_A: u8 = 0x61;

/// The letter `f`.
pub const LOWER_F: u8 = 0x66;

/// The letter `n`.
pub const LOWER_N: u8 = 0x6e;

/// The letter `r`.
pub const LOWER_R: u8 = 0x72;

/// The letter `s`.
pub const LOWER_S: u8 = 0x73;

} // verus!
