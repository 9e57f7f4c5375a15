//! A stream of lines, each ended by a carriage return and a line feed.

use crate::ascii::{CARRIAGE_RETURN, LINE_FEED};
use crate::error::MessageError;
use crate::irc::message::{tokenize, IrcMessage, MessageView};
use crate::maybe_owned::MaybeOwned;
use crate::text::{lemma_beside_ascii, slice_str};
use vstd::prelude::*;
use vstd::string::StringSliceAdditionalSpecFns;
use vstd::utf8::*;

verus! {

/// The position of the first line terminator at or after `from`, or the length of `bytes`.
pub open spec fn find_crlf(bytes: Seq<u8>, from: int) -> int
    decreases bytes.len() - from,
{
    if from < 0 || from + 1 >= bytes.len() {
        bytes.len() as int
    } else if bytes[from] == CARRIAGE_RETURN && bytes[from + 1] == LINE_FEED {
        from
    } else {
        find_crlf(bytes, from + 1)
    }
}

/// `find_crlf` finds a terminator that lies within the text, or none.
pub proof fn lemma_find_crlf(bytes: Seq<u8>, from: int)
    requires
        0 <= from <= bytes.len(),
    ensures
        from <= find_crlf(bytes, from) <= bytes.len(),
        find_crlf(bytes, from) < bytes.len() ==> find_crlf(bytes, from) + 1 < bytes.len()
            && bytes[find_crlf(bytes, from)] == CARRIAGE_RETURN && bytes[find_crlf(bytes, from) + 1] == LINE_FEED,
    decreases bytes.len() - from,
{
    if from + 1 < bytes.len() && !(bytes[from] == CARRIAGE_RETURN && bytes[from + 1] == LINE_FEED) {
        lemma_find_crlf(bytes, from + 1);
    }
}

/// What reading one line at `pos` yields, and the position after it:
/// nothing at the end of the input; the error that says the last line is not terminated, which
/// ends the stream; else the parts of the line or the tokenizer's error.
pub open spec fn next_line(bytes: Seq<u8>, pos: int) -> (
    Option<Result<MessageView, MessageError>>,
    int,
) {
    let end = find_crlf(bytes, pos);
    if pos >= bytes.len() {
        (None, pos)
    } else if end >= bytes.len() {
        (Some(Err(MessageError::IncompleteMessage { pos: pos as usize })), bytes.len() as int)
    } else {
        (Some(tokenize(bytes.subrange(pos, end + 2))), end + 2)
    }
}

/// The stream is finite: reading a line moves the position forward, never past the end of the
/// input, and at the end of the input nothing is read and the position stays.
pub proof fn lemma_stream_advances(bytes: Seq<u8>, pos: int)
    requires
        0 <= pos <= bytes.len(),
    ensures
        pos < bytes.len() ==> pos < next_line(bytes, pos).1 <= bytes.len() && next_line(
            bytes,
            pos,
        ).0 is Some,
        pos == bytes.len() ==> next_line(bytes, pos) == (
            None::<Result<MessageView, MessageError>>,
            pos,
        ),
{
    lemma_find_crlf(bytes, pos);
}

/// The views of what reading one line yields.
pub open spec fn line_view(r: Option<Result<IrcMessage, MessageError>>) -> Option<
    Result<MessageView, MessageError>,
> {
    match r {
        Some(Ok(msg)) => Some(Ok(msg@)),
        Some(Err(e)) => Some(Err(e)),
        None => None,
    }
}

/// A producer of the messages of an input, one line at a time.
#[derive(Debug)]
pub struct IrcParserIter<'a> {
    data: &'a str,
    pos: usize,
}

impl<'a> IrcParserIter<'a> {
    /// The position lies within the input, on a character boundary.
    #[verifier::type_invariant]
    pub closed spec fn well_formed(&self) -> bool {
        &&& self.pos <= self.data.spec_bytes().len()
        &&& is_char_boundary(self.data.spec_bytes(), self.pos as int)
    }

    /// The bytes of the whole input.
    pub closed spec fn bytes(&self) -> Seq<u8> {
        self.data.spec_bytes()
    }

    /// The position of the next line.
    pub closed spec fn position(&self) -> int {
        self.pos as int
    }

    /// Reads the next line: see `next_line`. A line that fails leaves the following lines
    /// readable.
    pub fn next(&mut self) -> (r: Option<Result<IrcMessage<'a>, MessageError>>)
        ensures
            final(self).bytes() == old(self).bytes(),
            line_view(r) == next_line(old(self).bytes(), old(self).position()).0,
            final(self).position() == next_line(old(self).bytes(), old(self).position()).1,
    {
        proof {
            use_type_invariant(&*self);
            broadcast use encode_utf8_valid_utf8;

        }
        let bytes = self.data.as_bytes();
        let len = bytes.len();
        let start = self.pos;
        if start >= len {
            return None;
        }
        let mut i: usize = start;
        proof {
            lemma_find_crlf(bytes@, start as int);
        }
        while i + 1 < len
            invariant
                start <= i < len,
                len == bytes@.len(),
                self.data == old(self).data,
                self.pos == old(self).pos,
                start == self.pos,
                bytes@ == self.data.spec_bytes(),
                valid_utf8(bytes@),
                is_char_boundary(bytes@, start as int),
                find_crlf(bytes@, start as int) == find_crlf(bytes@, i as int),
            decreases len - i,
        {
            if bytes[i] == CARRIAGE_RETURN && bytes[i + 1] == LINE_FEED {
                proof {
                    lemma_beside_ascii(bytes@, i + 2);
                }
                let line = slice_str(self.data, start, i + 2);
                self.pos = i + 2;
                return Some(IrcMessage::parse(MaybeOwned::Borrowed(line)));
            }
            i += 1;
        }
        proof {
            is_char_boundary_start_end_of_seq(bytes@);
        }
        self.pos = len;
        Some(Err(MessageError::IncompleteMessage { pos: start }))
    }
}

/// A producer of the messages that `input` holds.
pub fn parse(input: &str) -> (lines: IrcParserIter<'_>)
    ensures
        lines.bytes() == input.spec_bytes(),
        lines.position() == 0,
{
    proof {
        broadcast use encode_utf8_valid_utf8;

        is_char_boundary_start_end_of_seq(input.spec_bytes());
    }
    IrcParserIter { data: input, pos: 0 }
}

} // verus!
