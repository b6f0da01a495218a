//! Scheduling counter updates and creating the channels of new counters.

use crate::member_counter::types::{spec_interval_secs, interval_secs, CounterChannel, MemberCounterConfig};
use crate::text::{decimal, push_decimal, replace_all, replace_str};
use vstd::prelude::*;

verus! {

/// Claim marker for a guild's counter update; it exists for one update
/// interval after an update and doubles as the cross-instance lock.
pub fn update_claim_key(guild_id: u64) -> (r: String)
    ensures
        r@ == "member_counter:update_claim:"@ + decimal(guild_id as nat),
{
    let mut r = String::from_str("member_counter:update_claim:");
    push_decimal(&mut r, guild_id);
    r
}

/// How long the update claim of a guild lasts, in seconds; `None` when its
/// counters are not configured or switched off, so the job skips it.
pub fn claim_ttl_secs(config: Option<&MemberCounterConfig>) -> (r: Option<u64>)
    ensures
        match config {
            Some(c) => if c.enabled {
                r == Some(spec_interval_secs(c.update_interval_minutes) as u64)
            } else {
                r is None
            },
            None => r is None,
        },
{
    match config {
        Some(c) => {
            if c.enabled {
                Some(interval_secs(c.update_interval_minutes))
            } else {
                None
            }
        },
        None => None,
    }
}

/// The reply of the sync command when counters are off.
pub open spec fn counters_disabled_message() -> Seq<char> {
    "❌ Member counters are currently disabled or not configured on this server."@
}

/// Checks that counters can be synchronised, or gives the reply saying they
/// are off.
pub fn sync_precheck(config: Option<&MemberCounterConfig>) -> (r: Result<(), &'static str>)
    ensures
        match config {
            Some(c) => if c.enabled {
                r is Ok
            } else {
                r matches Err(m) && m@ == counters_disabled_message()
            },
            None => r matches Err(m) && m@ == counters_disabled_message(),
        },
{
    match config {
        Some(c) => {
            if c.enabled {
                return Ok(());
            }
        },
        None => {},
    }
    Err("❌ Member counters are currently disabled or not configured on this server.")
}

/// Whether some counter still has no channel.
pub fn needs_channel_setup(counters: &Vec<CounterChannel>) -> (r: bool)
    ensures
        r == exists|i: int| 0 <= i < counters@.len() && counters@[i].channel_id is None,
{
    let mut i: usize = 0;
    while i < counters.len()
        invariant
            i <= counters@.len(),
            forall|j: int| 0 <= j < i ==> counters@[j].channel_id is Some,
        decreases counters@.len() - i,
    {
        if counters[i].channel_id.is_none() {
            return true;
        }
        i = i + 1;
    }
    false
}

/// The name a new counter channel is created with: the template showing 0.
pub open spec fn spec_initial_name(template: Seq<char>) -> Seq<char> {
    replace_all(template, "{count}"@, "0"@)
}

/// Renders the name of a new counter channel.
pub fn initial_channel_name(template: &str) -> (r: String)
    ensures
        r@ == spec_initial_name(template@),
{
    proof {
        reveal_strlit("{count}");
    }
    replace_str(template, "{count}", "0")
}

/// The counters that need a channel: their positions and initial names, in
/// order.
pub open spec fn spec_pending(counters: Seq<CounterChannel>) -> Seq<(usize, Seq<char>)>
    decreases counters.len(),
{
    if counters.len() == 0 {
        Seq::empty()
    } else {
        let rest = spec_pending(counters.drop_last());
        let c = counters.last();
        if c.channel_id is None {
            rest.push(((counters.len() - 1) as usize, spec_initial_name(c.name_template@)))
        } else {
            rest
        }
    }
}

/// Lists the counters that need a channel, with the name to create it under.
pub fn pending_channels(counters: &Vec<CounterChannel>) -> (r: Vec<(usize, String)>)
    ensures
        r@.map_values(|p: (usize, String)| (p.0, p.1@)) == spec_pending(counters@),
{
    let mut r: Vec<(usize, String)> = Vec::new();
    let mut i: usize = 0;
    while i < counters.len()
        invariant
            i <= counters@.len(),
            r@.map_values(|p: (usize, String)| (p.0, p.1@)) == spec_pending(counters@.take(i as int)),
        decreases counters@.len() - i,
    {
        proof {
            assert(counters@.take(i as int + 1).drop_last() =~= counters@.take(i as int));
        }
        if counters[i].channel_id.is_none() {
            let name = initial_channel_name(counters[i].name_template.as_str());
            let ghost before = r@;
            r.push((i, name));
            proof {
                assert(r@.map_values(|p: (usize, String)| (p.0, p.1@)) =~= before.map_values(
                    |p: (usize, String)| (p.0, p.1@),
                ).push((i, name@)));
            }
        }
        i = i + 1;
    }
    proof {
        assert(counters@.take(counters@.len() as int) =~= counters@);
    }
    r
}

/// Records the channel created for the counter at `index`; nothing else changes.
pub fn assign_channel(counters: &mut Vec<CounterChannel>, index: usize, channel_id: u64)
    requires
        index < old(counters)@.len(),
    ensures
        final(counters)@.len() == old(counters)@.len(),
        forall|j: int| 0 <= j < old(counters)@.len() && j != index ==> final(counters)@[j] == old(counters)@[j],
        final(counters)@[index as int].channel_id == Some(channel_id),
        final(counters)@[index as int].id == old(counters)@[index as int].id,
        final(counters)@[index as int].counter_type == old(counters)@[index as int].counter_type,
        final(counters)@[index as int].role_id == old(counters)@[index as int].role_id,
        final(counters)@[index as int].name_template@ == old(counters)@[index as int].name_template@,
{
    let old_c = &counters[index];
    let updated = CounterChannel {
        id: old_c.id,
        channel_id: Some(channel_id),
        counter_type: old_c.counter_type,
        role_id: old_c.role_id,
        name_template: old_c.name_template.clone(),
    };
    counters.set(index, updated);
}

/// What looking up the saved counter category found.
#[derive(Debug, Clone, Copy, PartialEq, Eq, Structural)]
pub enum CategoryLookup {
    /// The channel exists and is a category.
    Category,
    /// The channel exists but is not a category.
    NotCategory,
    /// The channel could not be fetched.
    Missing,
}

/// The name of the category created for counters.
pub const COUNTER_CATEGORY_NAME: &'static str = "Server Stats";

/// The saved category to reuse, or `None` when a new one must be created.
pub fn reusable_category(saved: Option<u64>, lookup: CategoryLookup) -> (r: Option<u64>)
    ensures
        r == match saved {
            Some(id) => if lookup == CategoryLookup::Category {
                Some(id)
            } else {
                None
            },
            None => None::<u64>,
        },
{
    match saved {
        Some(id) => match lookup {
            CategoryLookup::Category => Some(id),
            _ => None,
        },
        None => None,
    }
}

} // verus!
