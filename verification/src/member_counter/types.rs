//! Member counter configuration.

use vstd::prelude::*;

verus! {

/// Which statistic a counter channel shows.
#[derive(Debug, Clone, Copy, PartialEq, Eq, Structural)]
pub enum CounterType {
    TotalMembers,
    HumansOnly,
    BotsOnly,
    OnlineMembers,
    RoleCount,
}

/// One counter: the channel it renames (none until it is created), what it
/// counts, the role counted by a role counter, and the name template in which
/// `{count}` stands for the number. `id` is the counter's UUID as a number.
#[derive(Debug, Clone)]
pub struct CounterChannel {
    pub id: u128,
    pub channel_id: Option<u64>,
    pub counter_type: CounterType,
    pub role_id: Option<u64>,
    pub name_template: String,
}

/// A guild's member counter settings.
#[derive(Debug, Clone)]
pub struct MemberCounterConfig {
    pub enabled: bool,
    pub update_interval_minutes: u32,
    pub counters: Vec<CounterChannel>,
    pub category_id: Option<u64>,
}

/// The update interval used when a stored configuration names none.
pub fn default_interval() -> (r: u32)
    ensures
        r == 15,
{
    15
}

impl Default for MemberCounterConfig {
    /// A disabled configuration without counters, category or interval.
    fn default() -> (r: Self)
        ensures
            !r.enabled,
            r.update_interval_minutes == 0,
            r.counters@.len() == 0,
            r.category_id is None,
    {
        MemberCounterConfig {
            enabled: false,
            update_interval_minutes: 0,
            counters: Vec::new(),
            category_id: None,
        }
    }
}

/// Seconds between two updates of a guild's counters: the configured minutes,
/// but never less than five.
pub open spec fn spec_interval_secs(minutes: u32) -> nat {
    (if minutes < 5 {
        5
    } else {
        minutes
    }) as nat * 60
}

/// The update interval in seconds.
pub fn interval_secs(update_interval_minutes: u32) -> (r: u64)
    ensures
        r == spec_interval_secs(update_interval_minutes),
        r >= 300,
{
    let minutes: u64 = if update_interval_minutes < 5 {
        5
    } else {
        update_interval_minutes as u64
    };
    minutes * 60
}

} // verus!
