//! Message logging: which deleted and edited messages are recorded, what is
//! recorded about them, and what is published to the live feed.

pub mod types;
pub mod filters;
pub mod events;
