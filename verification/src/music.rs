//! Music playback: queue and history management, timestamps and seeking,
//! playlist resolution helpers and the dashboard control protocol.

pub mod timestamp;
pub mod state;
pub mod laws;
pub mod keys;
pub mod youtube;
pub mod spotify;
pub mod query;
pub mod web;
pub mod web_command;
pub mod stats;
pub mod ffmpeg;
pub mod decisions;
pub mod replies;
