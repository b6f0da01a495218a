//! Channel lockdowns: the overwrite that silences `@everyone`, the snapshot that
//! lets an unlock restore the channel exactly, and server-wide sweep reports.

use crate::text::{decimal, push_decimal};
use vstd::prelude::*;

verus! {

/// Permission bit: send messages.
pub const SEND_MESSAGES: u64 = 0x800;
/// Permission bit: send messages in threads.
pub const SEND_MESSAGES_IN_THREADS: u64 = 0x40_0000_0000;
/// Permission bit: add reactions.
pub const ADD_REACTIONS: u64 = 0x40;
/// Permission bit: connect to a voice channel.
pub const CONNECT: u64 = 0x10_0000;
/// Permission bit: speak in a voice channel.
pub const SPEAK: u64 = 0x20_0000;

/// Seconds between renewals of the server-wide sweep lock.
pub const GLOBAL_SWEEP_LOCK_HEARTBEAT_SECS: u64 = 5;

/// The channel kinds a lockdown treats differently.
#[derive(Debug, Clone, Copy, PartialEq, Eq, Structural)]
pub enum LockChannelKind {
    Voice,
    Stage,
    Other,
}

/// A permission overwrite: the allowed and denied permission bits.
#[derive(Debug, Clone, Copy, PartialEq, Eq, Structural)]
pub struct Overwrite {
    pub allow: u64,
    pub deny: u64,
}

/// What a lockdown reads of a guild channel: its id and kind, whether it is
/// text based, and its current `@everyone` overwrite if it has one.
#[derive(Debug, Clone, Copy, PartialEq, Eq, Structural)]
pub struct LockdownChannel {
    pub id: u64,
    pub kind: LockChannelKind,
    pub text_based: bool,
    pub everyone_overwrite: Option<Overwrite>,
}

/// The bits a lockdown denies: chat on every channel, and also connecting and
/// speaking on voice and stage channels.
pub open spec fn spec_lockdown_deny(kind: LockChannelKind) -> u64 {
    match kind {
        LockChannelKind::Voice | LockChannelKind::Stage => SEND_MESSAGES | SEND_MESSAGES_IN_THREADS
            | ADD_REACTIONS | CONNECT | SPEAK,
        LockChannelKind::Other => SEND_MESSAGES | SEND_MESSAGES_IN_THREADS | ADD_REACTIONS,
    }
}

/// The locked overwrite: the existing one (or an empty one) with the lockdown
/// bits added to its denials and taken out of its allowances, since an
/// overwrite's allowances win over its denials.
pub open spec fn spec_lockdown_overwrite(existing: Option<Overwrite>, kind: LockChannelKind) -> Overwrite {
    match existing {
        Some(o) => Overwrite {
            allow: o.allow & !spec_lockdown_deny(kind),
            deny: o.deny | spec_lockdown_deny(kind),
        },
        None => Overwrite { allow: 0, deny: spec_lockdown_deny(kind) },
    }
}

/// The bits a lockdown of a channel of this kind denies.
pub fn lockdown_deny_bits(kind: LockChannelKind) -> (r: u64)
    ensures
        r == spec_lockdown_deny(kind),
{
    let base = SEND_MESSAGES | SEND_MESSAGES_IN_THREADS | ADD_REACTIONS;
    match kind {
        LockChannelKind::Voice | LockChannelKind::Stage => base | CONNECT | SPEAK,
        LockChannelKind::Other => base,
    }
}

/// Merges the lockdown denials into the channel's `@everyone` overwrite without
/// wiping its other allowances and denials; the lockdown bits it allowed are
/// no longer allowed.
pub fn calculate_lockdown_overwrite(channel: &LockdownChannel) -> (r: Overwrite)
    ensures
        r == spec_lockdown_overwrite(channel.everyone_overwrite, channel.kind),
{
    let deny = lockdown_deny_bits(channel.kind);
    match channel.everyone_overwrite {
        Some(o) => Overwrite { allow: o.allow & !deny, deny: o.deny | deny },
        None => Overwrite { allow: 0, deny },
    }
}

/// A lockdown denies sending messages, sending in threads and adding reactions
/// (and connecting and speaking on voice and stage channels), allows none of
/// them, and keeps every other bit the overwrite allowed and every bit it
/// denied.
pub proof fn law_lockdown_only_adds_denials(existing: Option<Overwrite>, kind: LockChannelKind)
    ensures
        ({
            let r = spec_lockdown_overwrite(existing, kind);
            let m = spec_lockdown_deny(kind);
            &&& r.deny & SEND_MESSAGES == SEND_MESSAGES
            &&& r.deny & SEND_MESSAGES_IN_THREADS == SEND_MESSAGES_IN_THREADS
            &&& r.deny & ADD_REACTIONS == ADD_REACTIONS
            &&& r.allow & SEND_MESSAGES == 0
            &&& r.allow & SEND_MESSAGES_IN_THREADS == 0
            &&& r.allow & ADD_REACTIONS == 0
            &&& (kind != LockChannelKind::Other ==> r.deny & CONNECT == CONNECT && r.deny & SPEAK
                == SPEAK && r.allow & CONNECT == 0 && r.allow & SPEAK == 0)
            &&& (existing matches Some(o) ==> r.allow == o.allow & !m && r.deny & o.deny == o.deny)
            &&& (existing is None ==> r.allow == 0)
        }),
{
    let m = spec_lockdown_deny(kind);
    assert((0x800u64 | 0x40_0000_0000u64 | 0x40u64) == 0x40_0000_0840u64) by (bit_vector);
    assert((0x800u64 | 0x40_0000_0000u64 | 0x40u64 | 0x10_0000u64 | 0x20_0000u64)
        == 0x40_0030_0840u64) by (bit_vector);
    let d: u64 = match existing {
        Some(o) => o.deny,
        None => 0,
    };
    assert(m == 0x40_0000_0840u64 || m == 0x40_0030_0840u64);
    assert(forall|x: u64, y: u64| #![auto] (x | y) & y == y && (x | y) & x == x) by (bit_vector);
    assert(forall|x: u64|
        #![auto]
        ((x | 0x40_0000_0840u64) & 0x800u64 == 0x800u64 && (x | 0x40_0000_0840u64)
            & 0x40_0000_0000u64 == 0x40_0000_0000u64 && (x | 0x40_0000_0840u64) & 0x40u64 == 0x40u64)
            && ((x | 0x40_0030_0840u64) & 0x800u64 == 0x800u64 && (x | 0x40_0030_0840u64)
            & 0x40_0000_0000u64 == 0x40_0000_0000u64 && (x | 0x40_0030_0840u64) & 0x40u64 == 0x40u64
            && (x | 0x40_0030_0840u64) & 0x10_0000u64 == 0x10_0000u64 && (x | 0x40_0030_0840u64)
            & 0x20_0000u64 == 0x20_0000u64)) by (bit_vector);
    assert(forall|x: u64|
        #![auto]
        ((x & !0x40_0000_0840u64) & 0x800u64 == 0 && (x & !0x40_0000_0840u64) & 0x40_0000_0000u64
            == 0 && (x & !0x40_0000_0840u64) & 0x40u64 == 0) && ((x & !0x40_0030_0840u64) & 0x800u64
            == 0 && (x & !0x40_0030_0840u64) & 0x40_0000_0000u64 == 0 && (x & !0x40_0030_0840u64)
            & 0x40u64 == 0 && (x & !0x40_0030_0840u64) & 0x10_0000u64 == 0 && (x
            & !0x40_0030_0840u64) & 0x20_0000u64 == 0)) by (bit_vector);
    assert((0u64 | m) == m) by (bit_vector)
        requires
            m == 0x40_0000_0840u64 || m == 0x40_0030_0840u64,
    ;
    assert(forall|y: u64| #![auto] (0u64 & y) == 0u64) by (bit_vector);
    assert((d | m) & m == m);
    assert((d | m) & d == d);
}

/// The `@everyone` overwrite a channel had before its lockdown, as stored so an
/// unlock can put it back.
#[derive(Debug, Clone, Copy, PartialEq, Eq, Structural)]
pub enum StoredOverwriteState {
    NoOverwrite,
    Existing { allow: u64, deny: u64 },
}

/// The snapshot of a channel's current `@everyone` overwrite.
pub open spec fn spec_snapshot(existing: Option<Overwrite>) -> StoredOverwriteState {
    match existing {
        Some(o) => StoredOverwriteState::Existing { allow: o.allow, deny: o.deny },
        None => StoredOverwriteState::NoOverwrite,
    }
}

/// Takes the snapshot stored before a channel is locked.
pub fn pre_lockdown_state(channel: &LockdownChannel) -> (r: StoredOverwriteState)
    ensures
        r == spec_snapshot(channel.everyone_overwrite),
{
    match channel.everyone_overwrite {
        Some(o) => StoredOverwriteState::Existing { allow: o.allow, deny: o.deny },
        None => StoredOverwriteState::NoOverwrite,
    }
}

/// The snapshot store is write-once: a snapshot already there (from an earlier
/// lock that was never undone) is kept.
pub open spec fn spec_snapshot_after_save(
    cached: Option<StoredOverwriteState>,
    fresh: StoredOverwriteState,
) -> StoredOverwriteState {
    match cached {
        Some(s) => s,
        None => fresh,
    }
}

/// The overwrite an unlock leaves on the channel: the snapshot's overwrite, or
/// none at all when there was none before or no snapshot was found.
pub open spec fn spec_restored(cached: Option<StoredOverwriteState>) -> Option<Overwrite> {
    match cached {
        Some(StoredOverwriteState::Existing { allow, deny }) => Some(Overwrite { allow, deny }),
        _ => None,
    }
}

/// What an unlock does to a channel.
#[derive(Debug, Clone, Copy, PartialEq, Eq, Structural)]
pub struct RestorePlan {
    /// The overwrite to recreate; `None` deletes the `@everyone` overwrite.
    pub overwrite: Option<Overwrite>,
    /// Whether a snapshot was used and must be removed afterwards.
    pub clear_snapshot: bool,
}

/// Decides how to restore a channel from its cached snapshot.
pub fn restore_plan(cached: Option<StoredOverwriteState>) -> (r: RestorePlan)
    ensures
        r.overwrite == spec_restored(cached),
        r.clear_snapshot == cached is Some,
{
    match cached {
        Some(StoredOverwriteState::Existing { allow, deny }) => RestorePlan {
            overwrite: Some(Overwrite { allow, deny }),
            clear_snapshot: true,
        },
        Some(StoredOverwriteState::NoOverwrite) => RestorePlan { overwrite: None, clear_snapshot: true },
        None => RestorePlan { overwrite: None, clear_snapshot: false },
    }
}

/// One lock of a channel: the write-once snapshot, then the locked overwrite.
pub open spec fn lock_step(
    overwrite: Option<Overwrite>,
    cached: Option<StoredOverwriteState>,
    kind: LockChannelKind,
) -> (Option<Overwrite>, Option<StoredOverwriteState>) {
    (
        Some(spec_lockdown_overwrite(overwrite, kind)),
        Some(spec_snapshot_after_save(cached, spec_snapshot(overwrite))),
    )
}

/// One unlock: the restored overwrite, and no snapshot left behind.
pub open spec fn unlock_step(cached: Option<StoredOverwriteState>) -> (
    Option<Overwrite>,
    Option<StoredOverwriteState>,
) {
    (spec_restored(cached), None)
}

/// `n` successive locks of a channel.
pub open spec fn locked_times(
    overwrite: Option<Overwrite>,
    cached: Option<StoredOverwriteState>,
    kind: LockChannelKind,
    n: nat,
) -> (Option<Overwrite>, Option<StoredOverwriteState>)
    decreases n,
{
    if n == 0 {
        (overwrite, cached)
    } else {
        let prev = locked_times(overwrite, cached, kind, (n - 1) as nat);
        lock_step(prev.0, prev.1, kind)
    }
}

/// Repeated locks keep the snapshot taken by the first one.
proof fn lemma_locks_keep_first_snapshot(
    overwrite: Option<Overwrite>,
    kind: LockChannelKind,
    n: nat,
)
    requires
        n >= 1,
    ensures
        locked_times(overwrite, None, kind, n).1 == Some(spec_snapshot(overwrite)),
    decreases n,
{
    if n > 1 {
        lemma_locks_keep_first_snapshot(overwrite, kind, (n - 1) as nat);
        let prev = locked_times(overwrite, None, kind, (n - 1) as nat);
        assert(locked_times(overwrite, None, kind, n) == lock_step(prev.0, prev.1, kind));
    } else {
        reveal_with_fuel(locked_times, 2);
    }
}

/// Unlocking a channel after one or more locks puts back exactly the
/// `@everyone` overwrite it had before the first lock (or none), and leaves no
/// snapshot behind.
pub proof fn law_unlock_restores_pre_lockdown(
    overwrite: Option<Overwrite>,
    kind: LockChannelKind,
    n: nat,
)
    requires
        n >= 1,
    ensures
        unlock_step(locked_times(overwrite, None, kind, n).1) == (overwrite, None::<
            StoredOverwriteState,
        >),
{
    lemma_locks_keep_first_snapshot(overwrite, kind, n);
}

/// A sweep touches text-based channels and voice and stage channels.
pub open spec fn spec_in_sweep_scope(c: LockdownChannel) -> bool {
    c.text_based || c.kind == LockChannelKind::Voice || c.kind == LockChannelKind::Stage
}

/// Whether a server-wide sweep locks or unlocks this channel.
pub fn in_sweep_scope(c: &LockdownChannel) -> (r: bool)
    ensures
        r == spec_in_sweep_scope(*c),
{
    c.text_based || match c.kind {
        LockChannelKind::Voice | LockChannelKind::Stage => true,
        LockChannelKind::Other => false,
    }
}

/// The channels a sweep handles, in order.
pub open spec fn spec_sweep_targets(cs: Seq<LockdownChannel>) -> Seq<LockdownChannel> {
    cs.filter(|c: LockdownChannel| spec_in_sweep_scope(c))
}

/// Keeps the channels a server-wide sweep handles, in their order.
pub fn sweep_targets(channels: &Vec<LockdownChannel>) -> (r: Vec<LockdownChannel>)
    ensures
        r@ == spec_sweep_targets(channels@),
{
    let mut r: Vec<LockdownChannel> = Vec::new();
    let mut i: usize = 0;
    while i < channels.len()
        invariant
            i <= channels@.len(),
            r@ == spec_sweep_targets(channels@.take(i as int)),
        decreases channels@.len() - i,
    {
        let c = channels[i];
        proof {
            assert(channels@.take(i as int + 1).drop_last() =~= channels@.take(i as int));
            reveal_with_fuel(Seq::filter, 1);
        }
        if in_sweep_scope(&c) {
            r.push(c);
        }
        i = i + 1;
    }
    proof {
        assert(channels@.take(channels@.len() as int) =~= channels@);
    }
    r
}

/// Outcome of a server-wide lock or unlock sweep: how many channels succeeded,
/// and the ids of those that failed.
#[derive(Debug, Clone)]
pub struct GlobalLockdownReport {
    pub succeeded: usize,
    pub failed_channel_ids: Vec<u64>,
}

impl Default for GlobalLockdownReport {
    fn default() -> (r: Self)
        ensures
            r.succeeded == 0,
            r.failed_channel_ids@ == Seq::<u64>::empty(),
    {
        GlobalLockdownReport { succeeded: 0, failed_channel_ids: Vec::new() }
    }
}

/// How many channel outcomes succeeded.
pub open spec fn succeeded_count(outcomes: Seq<(u64, bool)>) -> nat
    decreases outcomes.len(),
{
    if outcomes.len() == 0 {
        0
    } else {
        succeeded_count(outcomes.drop_last()) + if outcomes.last().1 {
            1nat
        } else {
            0nat
        }
    }
}

/// The ids of the channels whose outcome failed, in order.
pub open spec fn failed_ids(outcomes: Seq<(u64, bool)>) -> Seq<u64>
    decreases outcomes.len(),
{
    if outcomes.len() == 0 {
        Seq::empty()
    } else if outcomes.last().1 {
        failed_ids(outcomes.drop_last())
    } else {
        failed_ids(outcomes.drop_last()).push(outcomes.last().0)
    }
}

/// Every processed channel is counted exactly once, as a success or a failure.
pub proof fn law_sweep_accounts_every_channel(outcomes: Seq<(u64, bool)>)
    ensures
        succeeded_count(outcomes) + failed_ids(outcomes).len() == outcomes.len(),
    decreases outcomes.len(),
{
    if outcomes.len() > 0 {
        law_sweep_accounts_every_channel(outcomes.drop_last());
    }
}

/// Builds the sweep report from each handled channel's id and whether its
/// overwrite change succeeded.
pub fn tally_sweep(outcomes: &Vec<(u64, bool)>) -> (r: GlobalLockdownReport)
    ensures
        r.succeeded == succeeded_count(outcomes@),
        r.failed_channel_ids@ == failed_ids(outcomes@),
{
    let mut report = GlobalLockdownReport::default();
    let mut i: usize = 0;
    while i < outcomes.len()
        invariant
            i <= outcomes@.len(),
            report.succeeded == succeeded_count(outcomes@.take(i as int)),
            report.failed_channel_ids@ == failed_ids(outcomes@.take(i as int)),
            report.succeeded <= i,
        decreases outcomes@.len() - i,
    {
        proof {
            assert(outcomes@.take(i as int + 1).drop_last() =~= outcomes@.take(i as int));
        }
        let (id, ok) = outcomes[i];
        if ok {
            report.succeeded = report.succeeded + 1;
        } else {
            report.failed_channel_ids.push(id);
        }
        i = i + 1;
    }
    proof {
        assert(outcomes@.take(outcomes@.len() as int) =~= outcomes@);
    }
    report
}

/// Redis key under which a channel's pre-lockdown overwrite is cached.
pub fn lockdown_redis_key(guild_id: u64, channel_id: u64) -> (r: String)
    ensures
        r@ == "lockdown:overwrite:"@ + decimal(guild_id as nat) + ":"@ + decimal(channel_id as nat),
{
    let mut r = String::from_str("lockdown:overwrite:");
    push_decimal(&mut r, guild_id);
    r.append(":");
    push_decimal(&mut r, channel_id);
    r
}

/// Redis key of the lock that lets one server-wide sweep run at a time.
pub fn global_sweep_lock_key(guild_id: u64) -> (r: String)
    ensures
        r@ == "lockdown:sweep-lock:"@ + decimal(guild_id as nat),
{
    let mut r = String::from_str("lockdown:sweep-lock:");
    push_decimal(&mut r, guild_id);
    r
}

/// The reason recorded for a lock, `No reason provided` when none was given.
pub fn lock_reason(reason: Option<&str>) -> (r: &str)
    ensures
        r@ == match reason {
            Some(s) => s@,
            None => "No reason provided"@,
        },
{
    match reason {
        Some(s) => s,
        None => "No reason provided",
    }
}

/// The reason logged for a server-wide lock, with the sweep's counts.
pub fn global_lock_log_reason(reason: &str, report: &GlobalLockdownReport) -> (r: String)
    ensures
        r@ == reason@ + " (Channels affected: "@ + decimal(report.succeeded as nat)
            + ", failed: "@ + decimal(report.failed_channel_ids@.len()) + ")"@,
{
    let mut r = String::from_str(reason);
    r.append(" (Channels affected: ");
    push_decimal(&mut r, report.succeeded as u64);
    r.append(", failed: ");
    push_decimal(&mut r, report.failed_channel_ids.len() as u64);
    r.append(")");
    r
}

/// The reason logged for a server-wide unlock, with the sweep's counts.
pub fn global_unlock_log_reason(report: &GlobalLockdownReport) -> (r: String)
    ensures
        r@ == "Channels affected: "@ + decimal(report.succeeded as nat) + ", failed: "@ + decimal(
            report.failed_channel_ids@.len(),
        ),
{
    let mut r = String::from_str("Channels affected: ");
    push_decimal(&mut r, report.succeeded as u64);
    r.append(", failed: ");
    push_decimal(&mut r, report.failed_channel_ids.len() as u64);
    r
}

} // verus!
