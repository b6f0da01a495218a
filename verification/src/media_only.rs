//! Media-only channels: which messages break the rule, what the author is told,
//! and the threads opened under accepted posts.

pub mod types;
pub mod rules;
pub mod replies;
