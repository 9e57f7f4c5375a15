//! Error types returned by the decoders.

use vstd::prelude::*;

verus! {

/// Why the text of a value could not be decoded.
#[derive(Debug, Clone, Copy, PartialEq, Eq, Hash, Structural)]
pub enum ParseError {
    /// A number was expected and the text was empty.
    Empty,
    /// A number was expected and the text holds something that is no decimal digit.
    InvalidDigit,
    /// The number does not fit the type it is decoded into.
    Overflow,
    /// A positive number was expected and the text denotes zero in another form than `0`.
    NotPositive,
    /// A flag was expected and the text is neither `0` nor `1`.
    InvalidBool,
    /// A color was expected and the text is not of the form `#RRGGBB`.
    InvalidColor,
    /// A character range was expected and the text holds no `-`.
    InvalidRange,
    /// A badge was expected and the text is not of the form `name/number`.
    InvalidBadge,
    /// A score was expected and the text is not of the form `TYPE.SEVERITY`.
    InvalidScore,
}

/// Why a line could not be decoded into a message.
#[derive(Debug, Clone, Copy, PartialEq, Eq, Hash, Structural)]
pub enum MessageError {
    /// The line holds no command.
    EmptyMessage,
    /// The line starts a tag list with `@` that no space ends.
    UnterminatedTags,
    /// The line starts a prefix with `:` that no space ends.
    UnterminatedPrefix,
    /// The input ends before the line is terminated; `pos` is where that line starts.
    IncompleteMessage { pos: usize },
    /// The command is not the one that the message type stands for.
    InvalidCommand,
    /// The prefix holds no nickname.
    ExpectedNick,
    /// The argument at `pos` is missing.
    ExpectedArg { pos: usize },
    /// The trailing data is missing, or is a CTCP payload without a command.
    ExpectedData,
}

} // verus!
