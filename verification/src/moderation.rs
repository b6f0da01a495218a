//! Moderation: role hierarchy rules, channel lockdowns and their restoration,
//! audit-log synchronisation, stored intervals and moderation message text.

pub mod types;
pub mod hierarchy;
pub mod lockdown;
pub mod durations;
pub mod placeholders;
pub mod audit;
pub mod interval;
pub mod category;
pub mod messages;
