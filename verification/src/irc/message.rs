//! One line of the protocol, split into its parts.

use crate::ascii::{AT, CARRIAGE_RETURN, COLON, EXCLAMATION, SPACE, TAB};
use crate::error::MessageError;
use crate::irc::tags::{pairs_fit, tag_pairs, TagIndices};
use crate::maybe_owned::{
    lemma_text_is_utf8, optional_bytes, optional_of, MaybeOwned, MaybeOwnedIndex,
};
use crate::text::{
    beside_ascii, find_byte, index_of, lemma_beside_ascii, lemma_find_byte, range_eq,
};
use vstd::prelude::*;
use vstd::string::StringSliceAdditionalSpecFns;
use vstd::utf8::*;

verus! {

/// Whether `byte` is ASCII white space.
pub open spec fn is_space(byte: u8) -> bool {
    byte == SPACE || (TAB <= byte <= CARRIAGE_RETURN)
}

/// The first position in `bytes[from..to)` that holds no white space, or `to`.
pub open spec fn line_start(bytes: Seq<u8>, from: int, to: int) -> int
    decreases to - from,
{
    if from >= to {
        to
    } else if !is_space(bytes[from]) {
        from
    } else {
        line_start(bytes, from + 1, to)
    }
}

/// The position after the last byte of `bytes[from..to)` that is no white space, or `from`.
pub open spec fn line_end(bytes: Seq<u8>, from: int, to: int) -> int
    decreases to - from,
{
    if to <= from {
        from
    } else if !is_space(bytes[to - 1]) {
        to
    } else {
        line_end(bytes, from, to - 1)
    }
}

/// The range from `start` up to `end`.
pub open spec fn span(start: int, end: int) -> MaybeOwnedIndex {
    MaybeOwnedIndex { start: start as usize, end: end as usize }
}

/// The parts of a line: the text and the ranges of its parts.
pub struct MessageView {
    /// The bytes of the whole line.
    pub raw: Seq<u8>,
    /// The tag list with its leading `@`.
    pub tags: Option<MaybeOwnedIndex>,
    /// The prefix without its leading `:`.
    pub prefix: Option<MaybeOwnedIndex>,
    /// The command.
    pub command: MaybeOwnedIndex,
    /// The middle parameters, in order.
    pub args: Seq<MaybeOwnedIndex>,
    /// The trailing parameter without its leading `:`.
    pub data: Option<MaybeOwnedIndex>,
}

/// The middle parameters and the trailing parameter of the line that ends at `to`, read from
/// `from`, which is the end of the previous part. Parameters are separated by single spaces; an
/// empty one is passed over; one that begins with `:` runs to the end of the line.
pub open spec fn scan_params(bytes: Seq<u8>, from: int, to: int) -> (Seq<MaybeOwnedIndex>, Option<
    MaybeOwnedIndex,
>)
    decreases to - from,
{
    if from >= to {
        (Seq::empty(), None)
    } else if from + 1 < to && bytes[from + 1] == COLON {
        (Seq::empty(), Some(span(from + 2, to)))
    } else {
        let end = find_byte(bytes, from + 1, to, SPACE);
        proof {
            lemma_find_byte(bytes, from + 1, to, SPACE);
        }
        let rest = scan_params(bytes, end, to);
        if end > from + 1 {
            (seq![span(from + 1, end)] + rest.0, rest.1)
        } else {
            rest
        }
    }
}

/// The command and the parameters of a line whose tags and prefix end before `from`.
pub open spec fn scan_command(
    bytes: Seq<u8>,
    tags: Option<MaybeOwnedIndex>,
    prefix: Option<MaybeOwnedIndex>,
    from: int,
    to: int,
) -> Result<MessageView, MessageError> {
    let end = find_byte(bytes, from, to, SPACE);
    if end == from {
        Err(MessageError::EmptyMessage)
    } else {
        let params = scan_params(bytes, end, to);
        Ok(
            MessageView {
                raw: bytes,
                tags,
                prefix,
                command: span(from, end),
                args: params.0,
                data: params.1,
            },
        )
    }
}

/// The prefix, if the line has one at `from`, and what follows it.
pub open spec fn scan_prefix(bytes: Seq<u8>, tags: Option<MaybeOwnedIndex>, from: int, to: int)
    -> Result<MessageView, MessageError> {
    if from < to && bytes[from] == COLON {
        let end = find_byte(bytes, from, to, SPACE);
        if end == to {
            Err(MessageError::UnterminatedPrefix)
        } else {
            scan_command(bytes, tags, Some(span(from + 1, end)), end + 1, to)
        }
    } else {
        scan_command(bytes, tags, None, from, to)
    }
}

/// The parts of the line that `bytes` holds between white space at both ends.
pub open spec fn tokenize(bytes: Seq<u8>) -> Result<MessageView, MessageError> {
    let from = line_start(bytes, 0, bytes.len() as int);
    let to = line_end(bytes, from, bytes.len() as int);
    if from >= to {
        Err(MessageError::EmptyMessage)
    } else if bytes[from] == AT {
        let end = find_byte(bytes, from, to, SPACE);
        if end == to {
            Err(MessageError::UnterminatedTags)
        } else {
            scan_prefix(bytes, Some(span(from, end)), end + 1, to)
        }
    } else {
        scan_prefix(bytes, None, from, to)
    }
}

/// White space ends where `line_start` says, and only white space comes before.
pub proof fn lemma_line_start(bytes: Seq<u8>, from: int, to: int)
    requires
        0 <= from <= to <= bytes.len(),
    ensures
        from <= line_start(bytes, from, to) <= to,
        line_start(bytes, from, to) < to ==> !is_space(bytes[line_start(bytes, from, to)]),
        forall|i: int| from <= i < line_start(bytes, from, to) ==> is_space(#[trigger] bytes[i]),
    decreases to - from,
{
    if from < to && is_space(bytes[from]) {
        lemma_line_start(bytes, from + 1, to);
    }
}

/// White space starts where `line_end` says, and only white space comes after.
pub proof fn lemma_line_end(bytes: Seq<u8>, from: int, to: int)
    requires
        0 <= from <= to <= bytes.len(),
    ensures
        from <= line_end(bytes, from, to) <= to,
        line_end(bytes, from, to) > from ==> !is_space(bytes[line_end(bytes, from, to) - 1]),
        forall|i: int| line_end(bytes, from, to) <= i < to ==> is_space(#[trigger] bytes[i]),
    decreases to - from,
{
    if from < to && is_space(bytes[to - 1]) {
        lemma_line_end(bytes, from, to - 1);
    }
}

/// Whether every range of `view` lies within its text, on character boundaries.
pub open spec fn ranges_fit(view: MessageView) -> bool {
    &&& view.tags matches Some(tags) ==> tags.fits(view.raw)
    &&& view.prefix matches Some(prefix) ==> prefix.fits(view.raw)
    &&& view.command.fits(view.raw)
    &&& forall|i: int| 0 <= i < view.args.len() ==> (#[trigger] view.args[i]).fits(view.raw)
    &&& view.data matches Some(data) ==> data.fits(view.raw)
}

/// The parameters that the tokenizer finds in valid UTF-8 lie within the line, on character
/// boundaries.
pub proof fn lemma_scan_params_fit(bytes: Seq<u8>, from: int, to: int)
    requires
        valid_utf8(bytes),
        0 <= from <= to <= bytes.len() <= usize::MAX,
        beside_ascii(bytes, to),
        from < to ==> bytes[from] == SPACE,
    ensures
        forall|i: int|
            0 <= i < scan_params(bytes, from, to).0.len() ==> (#[trigger] scan_params(
                bytes,
                from,
                to,
            ).0[i]).fits(bytes),
        scan_params(bytes, from, to).1 matches Some(data) ==> data.fits(bytes),
    decreases to - from,
{
    if from >= to {
    } else if from + 1 < to && bytes[from + 1] == COLON {
        lemma_beside_ascii(bytes, from + 2);
        lemma_beside_ascii(bytes, to);
    } else {
        let end = find_byte(bytes, from + 1, to, SPACE);
        lemma_find_byte(bytes, from + 1, to, SPACE);
        lemma_scan_params_fit(bytes, end, to);
        let rest = scan_params(bytes, end, to);
        if end > from + 1 {
            lemma_beside_ascii(bytes, from + 1);
            lemma_beside_ascii(bytes, end);
            let all = scan_params(bytes, from, to).0;
            assert forall|i: int| 0 <= i < all.len() implies (#[trigger] all[i]).fits(bytes) by {
                if i > 0 {
                    assert(all[i] == rest.0[i - 1]);
                }
            }
        }
    }
}

/// The command and the parameters that the tokenizer finds in valid UTF-8 lie within the line,
/// on character boundaries.
pub proof fn lemma_scan_command_fits(
    bytes: Seq<u8>,
    tags: Option<MaybeOwnedIndex>,
    prefix: Option<MaybeOwnedIndex>,
    from: int,
    to: int,
)
    requires
        valid_utf8(bytes),
        0 <= from <= to <= bytes.len() <= usize::MAX,
        beside_ascii(bytes, from),
        beside_ascii(bytes, to),
        tags matches Some(tags) ==> tags.fits(bytes),
        prefix matches Some(prefix) ==> prefix.fits(bytes),
    ensures
        scan_command(bytes, tags, prefix, from, to) matches Ok(view) ==> ranges_fit(view),
{
    let end = find_byte(bytes, from, to, SPACE);
    lemma_find_byte(bytes, from, to, SPACE);
    if end != from {
        lemma_beside_ascii(bytes, from);
        lemma_beside_ascii(bytes, end);
        lemma_scan_params_fit(bytes, end, to);
    }
}

/// Every part that the tokenizer finds in valid UTF-8 lies within the line, on character
/// boundaries: a range into the line can be taken as text.
pub proof fn lemma_tokenize_fits(bytes: Seq<u8>)
    requires
        valid_utf8(bytes),
        bytes.len() <= usize::MAX,
    ensures
        tokenize(bytes) matches Ok(view) ==> ranges_fit(view),
{
    let len = bytes.len() as int;
    let from = line_start(bytes, 0, len);
    lemma_line_start(bytes, 0, len);
    let to = line_end(bytes, from, len);
    lemma_line_end(bytes, from, len);
    if from < to {
        assert(beside_ascii(bytes, from)) by {
            if from > 0 {
                assert(is_space(bytes[from - 1]));
            }
        }
        assert(beside_ascii(bytes, to)) by {
            if to < len {
                assert(is_space(bytes[to]));
            }
        }
        let (tags, at) = if bytes[from] == AT {
            let end = find_byte(bytes, from, to, SPACE);
            lemma_find_byte(bytes, from, to, SPACE);
            lemma_beside_ascii(bytes, from);
            lemma_beside_ascii(bytes, end);
            (Some(span(from, end)), end + 1)
        } else {
            (None, from)
        };
        if at <= to {
            if at < to && bytes[at] == COLON {
                let end = find_byte(bytes, at, to, SPACE);
                lemma_find_byte(bytes, at, to, SPACE);
                if end < to {
                    lemma_beside_ascii(bytes, at + 1);
                    lemma_beside_ascii(bytes, end);
                    lemma_scan_command_fits(bytes, tags, Some(span(at + 1, end)), end + 1, to);
                }
            } else {
                lemma_scan_command_fits(bytes, tags, None, at, to);
            }
        }
    }
}

/// One line, split into tags, prefix, command, middle parameters and trailing data.
///
/// The message keeps the text and the byte ranges of its parts.
#[derive(Debug, PartialEq)]
pub struct IrcMessage<'a> {
    raw: MaybeOwned<'a>,
    tags: Option<MaybeOwnedIndex>,
    prefix: Option<MaybeOwnedIndex>,
    command: MaybeOwnedIndex,
    args: Vec<MaybeOwnedIndex>,
    data: Option<MaybeOwnedIndex>,
}

impl<'a> View for IrcMessage<'a> {
    type V = MessageView;

    closed spec fn view(&self) -> MessageView {
        MessageView {
            raw: self.raw.bytes(),
            tags: self.tags,
            prefix: self.prefix,
            command: self.command,
            args: self.args@,
            data: self.data,
        }
    }
}

impl<'a> Clone for IrcMessage<'a> {
    fn clone(&self) -> (copy: Self)
        ensures
            copy@ == self@,
            copy.owns_text() == self.owns_text(),
    {
        proof {
            use_type_invariant(self);
        }
        IrcMessage {
            raw: self.raw.clone(),
            tags: self.tags,
            prefix: self.prefix,
            command: self.command,
            args: copy_ranges(&self.args),
            data: self.data,
        }
    }
}

/// A copy of `ranges`.
pub fn copy_ranges(ranges: &Vec<MaybeOwnedIndex>) -> (copy: Vec<MaybeOwnedIndex>)
    ensures
        copy@ == ranges@,
{
    let mut copy: Vec<MaybeOwnedIndex> = Vec::new();
    let mut i: usize = 0;
    while i < ranges.len()
        invariant
            i <= ranges@.len(),
            copy@ == ranges@.subrange(0, i as int),
        decreases ranges@.len() - i,
    {
        copy.push(ranges[i]);
        assert(copy@ =~= ranges@.subrange(0, i + 1));
        i += 1;
    }
    assert(copy@ =~= ranges@);
    copy
}

/// The ranges of a line's parts, as the tokenizer hands them on.
struct Parts {
    tags: Option<MaybeOwnedIndex>,
    prefix: Option<MaybeOwnedIndex>,
    command: MaybeOwnedIndex,
    args: Vec<MaybeOwnedIndex>,
    data: Option<MaybeOwnedIndex>,
}

impl Parts {
    spec fn over(self, raw: Seq<u8>) -> MessageView {
        MessageView {
            raw,
            tags: self.tags,
            prefix: self.prefix,
            command: self.command,
            args: self.args@,
            data: self.data,
        }
    }
}

/// The parts that were read as a view of the line `raw`, or the error.
spec fn parts_view(r: Result<Parts, MessageError>, raw: Seq<u8>) -> Result<
    MessageView,
    MessageError,
> {
    match r {
        Ok(parts) => Ok(parts.over(raw)),
        Err(e) => Err(e),
    }
}

/// Skips white space forwards from `from`.
fn skip_space(bytes: &[u8], from: usize, to: usize) -> (pos: usize)
    requires
        from <= to <= bytes@.len(),
    ensures
        pos == line_start(bytes@, from as int, to as int),
        from <= pos <= to,
{
    let mut i: usize = from;
    proof {
        lemma_line_start(bytes@, from as int, to as int);
    }
    while i < to
        invariant
            from <= i <= to <= bytes@.len(),
            line_start(bytes@, from as int, to as int) == line_start(bytes@, i as int, to as int),
        decreases to - i,
    {
        let b = bytes[i];
        if !(b == SPACE || (TAB <= b && b <= CARRIAGE_RETURN)) {
            return i;
        }
        i += 1;
    }
    i
}

/// Skips white space backwards from `to`.
fn skip_space_back(bytes: &[u8], from: usize, to: usize) -> (pos: usize)
    requires
        from <= to <= bytes@.len(),
    ensures
        pos == line_end(bytes@, from as int, to as int),
        from <= pos <= to,
{
    let mut i: usize = to;
    proof {
        lemma_line_end(bytes@, from as int, to as int);
    }
    while i > from
        invariant
            from <= i <= to <= bytes@.len(),
            line_end(bytes@, from as int, to as int) == line_end(bytes@, from as int, i as int),
        decreases i - from,
    {
        let b = bytes[i - 1];
        if !(b == SPACE || (TAB <= b && b <= CARRIAGE_RETURN)) {
            return i;
        }
        i -= 1;
    }
    i
}

/// Reads the parameters that follow the part ending at `from`.
fn read_params(bytes: &[u8], from: usize, to: usize) -> (r: (
    Vec<MaybeOwnedIndex>,
    Option<MaybeOwnedIndex>,
))
    requires
        from <= to <= bytes@.len(),
    ensures
        (r.0@, r.1) == scan_params(bytes@, from as int, to as int),
{
    let mut args: Vec<MaybeOwnedIndex> = Vec::new();
    let mut pos: usize = from;
    let ghost total = scan_params(bytes@, from as int, to as int);
    assert(args@ + scan_params(bytes@, pos as int, to as int).0 =~= total.0);
    while pos < to
        invariant
            from <= pos <= to <= bytes@.len(),
            total == scan_params(bytes@, from as int, to as int),
            args@ + scan_params(bytes@, pos as int, to as int).0 == total.0,
            scan_params(bytes@, pos as int, to as int).1 == total.1,
        decreases to - pos,
    {
        let start: usize = pos + 1;
        if start < to && bytes[start] == COLON {
            let data = MaybeOwnedIndex::raw(start + 1, to);
            proof {
                assert(data == span(start + 1, to as int));
                assert(args@ + Seq::<MaybeOwnedIndex>::empty() =~= args@);
            }
            return (args, Some(data));
        }
        let end = index_of(bytes, start, to, SPACE);
        let ghost before = args@;
        let ghost rest = scan_params(bytes@, end as int, to as int);
        if end > start {
            let arg = MaybeOwnedIndex::raw(start, end);
            assert(arg == span(start as int, end as int));
            args.push(arg);
            assert(args@ + rest.0 =~= before + (seq![arg] + rest.0));
        }
        pos = end;
    }
    assert(args@ + Seq::<MaybeOwnedIndex>::empty() =~= args@);
    (args, None)
}

/// Reads the command at `from` and the parameters after it.
fn read_command(
    bytes: &[u8],
    tags: Option<MaybeOwnedIndex>,
    prefix: Option<MaybeOwnedIndex>,
    from: usize,
    to: usize,
) -> (r: Result<Parts, MessageError>)
    requires
        from <= to <= bytes@.len(),
    ensures
        parts_view(r, bytes@) == scan_command(bytes@, tags, prefix, from as int, to as int),
{
    let end = index_of(bytes, from, to, SPACE);
    if end == from {
        return Err(MessageError::EmptyMessage);
    }
    let (args, data) = read_params(bytes, end, to);
    let parts = Parts { tags, prefix, command: MaybeOwnedIndex::raw(from, end), args, data };
    assert(parts.command == span(from as int, end as int));
    Ok(parts)
}

/// Reads the prefix at `from`, if there is one, and what follows it.
fn read_prefix(bytes: &[u8], tags: Option<MaybeOwnedIndex>, from: usize, to: usize) -> (r: Result<
    Parts,
    MessageError,
>)
    requires
        from <= to <= bytes@.len(),
    ensures
        parts_view(r, bytes@) == scan_prefix(bytes@, tags, from as int, to as int),
{
    if from < to && bytes[from] == COLON {
        let end = index_of(bytes, from, to, SPACE);
        if end == to {
            return Err(MessageError::UnterminatedPrefix);
        }
        let prefix = MaybeOwnedIndex::raw(from + 1, end);
        assert(prefix == span(from + 1, end as int));
        read_command(bytes, tags, Some(prefix), end + 1, to)
    } else {
        read_command(bytes, tags, None, from, to)
    }
}

/// Splits the line that `bytes` holds into its parts.
fn read_line(bytes: &[u8]) -> (r: Result<Parts, MessageError>)
    ensures
        parts_view(r, bytes@) == tokenize(bytes@),
        bytes@.len() <= usize::MAX,
{
    let len = bytes.len();
    let from = skip_space(bytes, 0, len);
    let to = skip_space_back(bytes, from, len);
    if from >= to {
        return Err(MessageError::EmptyMessage);
    }
    if bytes[from] == AT {
        let end = index_of(bytes, from, to, SPACE);
        if end == to {
            return Err(MessageError::UnterminatedTags);
        }
        let tags = MaybeOwnedIndex::raw(from, end);
        assert(tags == span(from as int, end as int));
        read_prefix(bytes, Some(tags), end + 1, to)
    } else {
        read_prefix(bytes, None, from, to)
    }
}

/// The nickname in a prefix of the form `nick!user@host`: what comes before the first `!`.
pub open spec fn nick_of(bytes: Seq<u8>, prefix: Option<MaybeOwnedIndex>) -> Option<
    MaybeOwnedIndex,
> {
    match prefix {
        Some(prefix) => {
            let mark = find_byte(bytes, prefix.start as int, prefix.end as int, EXCLAMATION);
            if mark < prefix.end {
                Some(span(prefix.start as int, mark))
            } else {
                None
            }
        },
        None => None,
    }
}

impl MessageView {
    /// The nickname of the sender, if the prefix holds one.
    pub open spec fn nick(self) -> Option<MaybeOwnedIndex> {
        nick_of(self.raw, self.prefix)
    }

    /// The middle parameter at `nth`, if there are that many.
    pub open spec fn arg(self, nth: int) -> Option<MaybeOwnedIndex> {
        if 0 <= nth < self.args.len() {
            Some(self.args[nth])
        } else {
            None
        }
    }
}

impl<'a> IrcMessage<'a> {
    /// The command of a message that a user sent to a channel.
    pub const PRIVMSG: &'static str = "PRIVMSG";

    /// The command of a message that a user sent to this user alone.
    pub const WHISPER: &'static str = "WHISPER";

    /// The command that tells a user's settings in a channel.
    pub const USER_STATE: &'static str = "USERSTATE";

    /// The command that tells a channel's settings.
    pub const ROOM_STATE: &'static str = "ROOMSTATE";

    /// The command that announces an event in a channel.
    pub const USER_NOTICE: &'static str = "USERNOTICE";

    /// The command that tells a user's settings after login.
    pub const GLOBAL_USER_STATE: &'static str = "GLOBALUSERSTATE";

    /// Every range lies within the text, on character boundaries.
    #[verifier::type_invariant]
    pub closed spec fn well_formed(&self) -> bool {
        ranges_fit(self@)
    }

    /// Splits one line into its parts.
    ///
    /// White space at both ends of the line, a line terminator included, belongs to no part.
    /// The result is the error that `tokenize` gives, or a message with the parts that it
    /// gives, each of which lies within the line, on character boundaries.
    pub fn parse(input: MaybeOwned<'a>) -> (r: Result<IrcMessage<'a>, MessageError>)
        ensures
            match r {
                Ok(msg) => tokenize(input.bytes()) == Ok::<MessageView, MessageError>(msg@)
                    && ranges_fit(msg@),
                Err(e) => tokenize(input.bytes()) == Err::<MessageView, MessageError>(e),
            },
    {
        let bytes = input.as_str().as_bytes();
        let parts = match read_line(bytes) {
            Ok(parts) => parts,
            Err(e) => {
                return Err(e);
            },
        };
        proof {
            lemma_text_is_utf8(input);
            lemma_tokenize_fits(bytes@);
        }
        let Parts { tags, prefix, command, args, data } = parts;
        assert(parts.over(input.bytes()) == (MessageView {
            raw: input.bytes(),
            tags,
            prefix,
            command,
            args: args@,
            data,
        }));
        Ok(IrcMessage { raw: input, tags, prefix, command, args, data })
    }

    /// The whole line, as it was handed in.
    pub fn get_raw(&self) -> (text: &str)
        ensures
            text.spec_bytes() == self@.raw,
    {
        self.raw.as_str()
    }

    /// The tag list with its leading `@`, if the line has one.
    pub fn get_tags(&self) -> (text: Option<&str>)
        ensures
            optional_bytes(text) == optional_of(self@.tags, self@.raw),
    {
        proof {
            use_type_invariant(self);
        }
        match self.tags {
            Some(index) => Some(self.raw.slice(index)),
            None => None,
        }
    }

    /// The prefix without its leading `:`, if the line has one.
    pub fn get_prefix(&self) -> (text: Option<&str>)
        ensures
            optional_bytes(text) == optional_of(self@.prefix, self@.raw),
    {
        proof {
            use_type_invariant(self);
        }
        match self.prefix {
            Some(index) => Some(self.raw.slice(index)),
            None => None,
        }
    }

    /// The command.
    pub fn get_command(&self) -> (text: &str)
        ensures
            text.spec_bytes() == self@.command.of(self@.raw),
    {
        proof {
            use_type_invariant(self);
        }
        self.raw.slice(self.command)
    }

    /// The trailing parameter without its leading `:`, if the line has one.
    pub fn get_data(&self) -> (text: Option<&str>)
        ensures
            optional_bytes(text) == optional_of(self@.data, self@.raw),
    {
        proof {
            use_type_invariant(self);
        }
        match self.data {
            Some(index) => Some(self.raw.slice(index)),
            None => None,
        }
    }

    /// The range of the trailing parameter, if the line has one.
    pub fn get_data_index(&self) -> (index: Option<MaybeOwnedIndex>)
        ensures
            index == self@.data,
            index matches Some(index) ==> index.fits(self@.raw),
    {
        proof {
            use_type_invariant(self);
        }
        self.data
    }

    /// The range of the middle parameter at `nth`, counted from zero.
    pub fn nth_arg_index(&self, nth: usize) -> (index: Option<MaybeOwnedIndex>)
        ensures
            index == self@.arg(nth as int),
            index matches Some(index) ==> index.fits(self@.raw),
    {
        proof {
            use_type_invariant(self);
        }
        if nth < self.args.len() {
            Some(self.args[nth])
        } else {
            None
        }
    }

    /// The middle parameter at `nth`, counted from zero.
    pub fn nth_arg(&self, nth: usize) -> (text: Option<&str>)
        ensures
            optional_bytes(text) == optional_of(self@.arg(nth as int), self@.raw),
    {
        match self.nth_arg_index(nth) {
            Some(index) => Some(self.raw.slice(index)),
            None => None,
        }
    }

    /// The range of the sender's nickname, if the prefix holds one.
    pub fn get_nick_index(&self) -> (index: Option<MaybeOwnedIndex>)
        ensures
            index == self@.nick(),
            index matches Some(index) ==> index.fits(self@.raw),
    {
        proof {
            use_type_invariant(self);
            lemma_text_is_utf8(self.raw);
        }
        match self.prefix {
            Some(prefix) => {
                let bytes = self.raw.as_str().as_bytes();
                let mark = index_of(bytes, prefix.start, prefix.end, EXCLAMATION);
                if mark < prefix.end {
                    proof {
                        lemma_find_byte(bytes@, prefix.start as int, prefix.end as int, EXCLAMATION);
                        lemma_beside_ascii(bytes@, mark as int);
                    }
                    Some(MaybeOwnedIndex::raw(prefix.start, mark))
                } else {
                    None
                }
            },
            None => None,
        }
    }

    /// The sender's nickname, if the prefix holds one.
    pub fn get_nick(&self) -> (text: Option<&str>)
        ensures
            optional_bytes(text) == optional_of(self@.nick(), self@.raw),
    {
        match self.get_nick_index() {
            Some(index) => Some(self.raw.slice(index)),
            None => None,
        }
    }

    /// Checks that the command is `command`.
    pub fn expect_command(&self, command: &str) -> (r: Result<(), MessageError>)
        ensures
            r == if self@.command.of(self@.raw) == command.spec_bytes() {
                Ok::<(), MessageError>(())
            } else {
                Err::<(), MessageError>(MessageError::InvalidCommand)
            },
    {
        proof {
            use_type_invariant(self);
        }
        let bytes = self.raw.as_str().as_bytes();
        if range_eq(bytes, self.command.start, self.command.end, command.as_bytes()) {
            Ok(())
        } else {
            Err(MessageError::InvalidCommand)
        }
    }

    /// The range of the sender's nickname, or the error that says it is missing.
    pub fn expect_nick(&self) -> (r: Result<MaybeOwnedIndex, MessageError>)
        ensures
            r == match self@.nick() {
                Some(index) => Ok::<MaybeOwnedIndex, MessageError>(index),
                None => Err::<MaybeOwnedIndex, MessageError>(MessageError::ExpectedNick),
            },
            r matches Ok(index) ==> index.fits(self@.raw),
    {
        match self.get_nick_index() {
            Some(index) => Ok(index),
            None => Err(MessageError::ExpectedNick),
        }
    }

    /// The range of the middle parameter at `nth`, or the error that says it is missing.
    pub fn expect_arg_index(&self, nth: usize) -> (r: Result<MaybeOwnedIndex, MessageError>)
        ensures
            r == match self@.arg(nth as int) {
                Some(index) => Ok::<MaybeOwnedIndex, MessageError>(index),
                None => Err::<MaybeOwnedIndex, MessageError>(
                    MessageError::ExpectedArg { pos: nth },
                ),
            },
            r matches Ok(index) ==> index.fits(self@.raw),
    {
        match self.nth_arg_index(nth) {
            Some(index) => Ok(index),
            None => Err(MessageError::ExpectedArg { pos: nth }),
        }
    }

    /// The middle parameter at `nth`, or the error that says it is missing.
    pub fn expect_arg(&self, nth: usize) -> (r: Result<&str, MessageError>)
        ensures
            match r {
                Ok(text) => self@.arg(nth as int) matches Some(index) && text.spec_bytes()
                    == index.of(self@.raw),
                Err(e) => self@.arg(nth as int) is None && e == (MessageError::ExpectedArg {
                    pos: nth,
                }),
            },
    {
        match self.nth_arg_index(nth) {
            Some(index) => Ok(self.raw.slice(index)),
            None => Err(MessageError::ExpectedArg { pos: nth }),
        }
    }

    /// The range of the trailing parameter, or the error that says it is missing.
    pub fn expect_data_index(&self) -> (r: Result<MaybeOwnedIndex, MessageError>)
        ensures
            r == match self@.data {
                Some(index) => Ok::<MaybeOwnedIndex, MessageError>(index),
                None => Err::<MaybeOwnedIndex, MessageError>(MessageError::ExpectedData),
            },
            r matches Ok(index) ==> index.fits(self@.raw),
    {
        proof {
            use_type_invariant(self);
        }
        match self.data {
            Some(index) => Ok(index),
            None => Err(MessageError::ExpectedData),
        }
    }

    /// The trailing parameter, or the error that says it is missing.
    pub fn expect_data(&self) -> (r: Result<&str, MessageError>)
        ensures
            match r {
                Ok(text) => self@.data matches Some(index) && text.spec_bytes() == index.of(
                    self@.raw,
                ),
                Err(e) => self@.data is None && e == MessageError::ExpectedData,
            },
    {
        proof {
            use_type_invariant(self);
        }
        match self.data {
            Some(index) => Ok(self.raw.slice(index)),
            None => Err(MessageError::ExpectedData),
        }
    }

    /// The index of the line's tags.
    pub fn parse_tags(&self) -> (indices: TagIndices)
        ensures
            indices@ == tag_pairs(self@.raw, self@.tags),
            pairs_fit(self@.raw, indices@),
    {
        proof {
            use_type_invariant(self);
        }
        TagIndices::build_indices(self.raw.as_str(), self.tags)
    }

    /// The text of the line, handed out.
    pub fn into_inner(self) -> (text: MaybeOwned<'a>)
        ensures
            text.bytes() == self@.raw,
            text is Owned == self.owns_text(),
    {
        self.raw
    }

    /// Whether the message owns its text: then it holds bytes of its own and outlives the
    /// input that it was made of.
    pub closed spec fn owns_text(&self) -> bool {
        self.raw is Owned
    }

    /// The same message over an owned copy of its text: the copy holds bytes of its own, and
    /// every range into the text is a range into the copy.
    pub fn into_owned(self) -> (owned: IrcMessage<'static>)
        ensures
            owned@ == self@,
            owned.owns_text(),
    {
        proof {
            use_type_invariant(&self);
        }
        let IrcMessage { raw, tags, prefix, command, args, data } = self;
        IrcMessage { raw: raw.into_owned(), tags, prefix, command, args, data }
    }
}

} // verus!
