//! The line tokenizer, the tag index and the stream of lines.

pub mod message;
pub mod parser;
pub mod tags;

pub use message::IrcMessage;
pub use parser::{parse, IrcParserIter};
pub use tags::{ParsedTag, TagIndices, Tags};
