//! Decoding of Twitch chat lines into typed, queryable message records.
//!
//! A line is split into its parts by [`irc::IrcMessage::parse`], which keeps the text and the
//! byte ranges of the parts. A message of one of the types in [`messages`] is made of such a
//! line by [`messages::decode`]; it reads its tags on demand, through the index in
//! [`irc::tags`], and decodes their values with the types in [`twitch`]. Nothing is copied
//! until a message is asked for an owned copy of itself.

pub mod ascii;
pub mod error;
pub mod irc;
pub mod maybe_owned;
pub mod messages;
pub mod num;
pub mod parse;
pub mod text;
pub mod twitch;

pub use error::{MessageError, ParseError};
pub use maybe_owned::{MaybeOwned, MaybeOwnedIndex};
pub use messages::{decode, FromIrcMessage};
