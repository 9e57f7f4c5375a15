//! Making a message of a line: one entry point for every type of message.

use crate::error::MessageError;
use crate::irc::message::{tokenize, IrcMessage, MessageView};
use crate::maybe_owned::MaybeOwned;
use crate::messages::tags::{made_view, HasTags};
use vstd::prelude::*;

verus! {

/// A message that is made of one line.
pub trait FromIrcMessage<'a>: HasTags<'a> + View + Sized {
    /// The message that the parts of a line make, or why they make none.
    spec fn made_of(msg: MessageView) -> Result<Self::V, MessageError>;

    /// Makes the message of a line that was split into its parts.
    fn from_irc(msg: IrcMessage<'a>) -> (r: Result<Self, MessageError>)
        ensures
            made_view(r) == Self::made_of(msg@),
    ;

    /// Hands out the line that the message was made of.
    fn into_inner(self) -> (text: MaybeOwned<'a>)
        ensures
            text.bytes() == self.line().raw,
    ;
}

/// The message of type `T` that a line makes: its parts are found, and the message is made of
/// them. The error is that of the tokenizer, or else that of the message.
pub open spec fn decoded<'a, T: FromIrcMessage<'a>>(line: Seq<u8>) -> Result<T::V, MessageError> {
    match tokenize(line) {
        Ok(msg) => T::made_of(msg),
        Err(e) => Err(e),
    }
}

/// Decodes one line into a message of type `T`: see `decoded`.
pub fn decode<'a, T: FromIrcMessage<'a>>(line: MaybeOwned<'a>) -> (r: Result<T, MessageError>)
    ensures
        made_view(r) == decoded::<T>(line.bytes()),
{
    T::from_irc(IrcMessage::parse(line)?)
}

} // verus!
