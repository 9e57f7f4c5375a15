//! The messages of the protocol, one type for each command.

pub mod decode;
pub mod global_user_state;
pub mod privmsg;
pub mod room_state;
pub mod tags;
pub mod user_notice;
pub mod user_state;
pub mod whisper;

pub use decode::{decode, FromIrcMessage};
pub use global_user_state::GlobalUserState;
pub use privmsg::{Ctcp, Privmsg};
pub use room_state::{FollowersOnly, RoomState};
pub use tags::HasTags;
pub use user_notice::{NoticeType, SubPlan, UserNotice};
pub use user_state::UserState;
pub use whisper::Whisper;
