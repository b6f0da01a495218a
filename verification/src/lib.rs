//! Verified core logic of the mod-oud Discord moderation bot: music queue
//! management, moderation rules, media-only enforcement, member counters and
//! message logging decisions.

pub mod text;
pub mod music;
pub mod moderation;
pub mod member_counter;
pub mod media_only;
pub mod message_logging;
pub mod live_feed;
