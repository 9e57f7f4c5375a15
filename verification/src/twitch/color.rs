//! The color of a user's name.

use crate::ascii::{HASH, LOWER_A, LOWER_F, NINE, UPPER_A, UPPER_F, ZERO};
use crate::error::ParseError;
use crate::parse::FromText;
use vstd::prelude::*;
use vstd::string::StringSliceAdditionalSpecFns;

verus! {

/// A color of 24 bits: red, green and blue.
#[derive(Debug, Clone, Copy, PartialEq, Eq, Hash, Structural)]
pub struct Color {
    /// The red part.
    pub red: u8,
    /// The green part.
    pub green: u8,
    /// The blue part.
    pub blue: u8,
}

impl View for Color {
    type V = Color;

    open spec fn view(&self) -> Color {
        *self
    }
}

/// White, the color of a user who has set none.
pub open spec fn white() -> Color {
    Color { red: 0xff, green: 0xff, blue: 0xff }
}

/// The value of a hexadecimal digit of either case.
pub open spec fn hex_value(byte: u8) -> Option<u8> {
    if ZERO <= byte <= NINE {
        Some((byte - ZERO) as u8)
    } else if UPPER_A <= byte <= UPPER_F {
        Some((byte - UPPER_A + 10) as u8)
    } else if LOWER_A <= byte <= LOWER_F {
        Some((byte - LOWER_A + 10) as u8)
    } else {
        None
    }
}

/// The byte that two hexadecimal digits denote.
pub open spec fn hex_pair(high: u8, low: u8) -> Option<u8> {
    match (hex_value(high), hex_value(low)) {
        (Some(high), Some(low)) => Some((high * 16 + low) as u8),
        _ => None,
    }
}

/// The color that `#RRGGBB` denotes; an empty text denotes white.
pub open spec fn parse_color(text: Seq<u8>) -> Result<Color, ParseError> {
    if text.len() == 0 {
        Ok(white())
    } else if text.len() == 7 && text[0] == HASH {
        match (hex_pair(text[1], text[2]), hex_pair(text[3], text[4]), hex_pair(text[5], text[6])) {
            (Some(red), Some(green), Some(blue)) => Ok(Color { red, green, blue }),
            _ => Err(ParseError::InvalidColor),
        }
    } else {
        Err(ParseError::InvalidColor)
    }
}

/// The value of one hexadecimal digit.
fn hex_digit(byte: u8) -> (value: Option<u8>)
    ensures
        value == hex_value(byte),
        value matches Some(value) ==> value < 16,
{
    if ZERO <= byte && byte <= NINE {
        Some(byte - ZERO)
    } else if UPPER_A <= byte && byte <= UPPER_F {
        Some(byte - UPPER_A + 10)
    } else if LOWER_A <= byte && byte <= LOWER_F {
        Some(byte - LOWER_A + 10)
    } else {
        None
    }
}

/// The byte that two hexadecimal digits denote.
fn hex_byte(high: u8, low: u8) -> (value: Option<u8>)
    ensures
        value == hex_pair(high, low),
{
    match (hex_digit(high), hex_digit(low)) {
        (Some(high), Some(low)) => Some(high * 16 + low),
        _ => None,
    }
}

impl Color {
    /// Decodes a color written as `#RRGGBB`, with hexadecimal digits of either case. An empty
    /// text is the color of a user who has set none.
    pub fn from_str(text: &str) -> (r: Result<Color, ParseError>)
        ensures
            r == parse_color(text.spec_bytes()),
    {
        let bytes = text.as_bytes();
        if bytes.len() == 0 {
            return Ok(Color::default());
        }
        if bytes.len() != 7 || bytes[0] != HASH {
            return Err(ParseError::InvalidColor);
        }
        match (hex_byte(bytes[1], bytes[2]), hex_byte(bytes[3], bytes[4]), hex_byte(
            bytes[5],
            bytes[6],
        )) {
            (Some(red), Some(green), Some(blue)) => Ok(Color { red, green, blue }),
            _ => Err(ParseError::InvalidColor),
        }
    }
}

impl Default for Color {
    fn default() -> (color: Color)
        ensures
            color == white(),
    {
        Color { red: 0xff, green: 0xff, blue: 0xff }
    }
}

impl FromText for Color {
    open spec fn decoded(text: Seq<u8>) -> Result<Color, ParseError> {
        parse_color(text)
    }

    fn from_text(text: &str) -> (r: Result<Color, ParseError>) {
        Color::from_str(text)
    }
}

} // verus!
