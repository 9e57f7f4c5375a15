//! The values that tags hold: colors, badges, emotes and flags.

pub mod attributes;
pub mod badge;
pub mod color;
pub mod emotes;
pub mod flags;

pub use attributes::{Attribution, AttributionVec, MsgRange, SeparatorInfo};
pub use badge::{Badge, BadgeInfo, BadgeVec};
pub use color::Color;
pub use emotes::{Emote, EmoteVec};
pub use flags::{Flag, FlagVec, Score, ScoreType};
