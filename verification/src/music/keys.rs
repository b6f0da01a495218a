//! Redis channel names of the dashboard music control protocol.

use crate::text::concat2;
use vstd::prelude::*;

verus! {

/// Redis channel every bot instance subscribes to for dashboard music commands.
pub fn commands_channel() -> (r: &'static str)
    ensures
        r@ == "music_web_commands"@,
{
    "music_web_commands"
}

/// Per-instance Redis channel a web process listens on for command results.
pub fn replies_channel(instance_id: &str) -> (r: String)
    ensures
        r@ == "music_web_replies:"@ + instance_id@,
{
    concat2("music_web_replies:", instance_id)
}

/// Redis channel music actors publish now-playing updates to.
pub fn events_channel() -> (r: &'static str)
    ensures
        r@ == "music_web_events"@,
{
    "music_web_events"
}

} // verus!
