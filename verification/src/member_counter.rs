//! Member counters: voice channels whose names show live member statistics.

pub mod types;
pub mod counts;
pub mod setup;
