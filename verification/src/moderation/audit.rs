//! Mirroring moderation done through Discord itself (right-click kick, ban,
//! timeout) into the moderation log, from audit log entries.

use crate::moderation::types::ActionType;
use vstd::prelude::*;

verus! {

/// Audit log action code of a member kick.
pub const AUDIT_MEMBER_KICK: u8 = 20;
/// Audit log action code of a member ban.
pub const AUDIT_MEMBER_BAN_ADD: u8 = 22;
/// Audit log action code of a lifted ban.
pub const AUDIT_MEMBER_BAN_REMOVE: u8 = 23;
/// Audit log action code of a member update (timeouts among others).
pub const AUDIT_MEMBER_UPDATE: u8 = 24;

/// Largest whole number of seconds a `chrono::TimeDelta` holds.
pub const MAX_DELTA_SECS: i64 = 9_223_372_036_854_775;

/// One change recorded by an audit log entry.
#[derive(Debug, Clone, Copy, PartialEq, Eq, Structural)]
pub enum AuditChange {
    /// The member's timeout end changed; `new` is the new end in unix seconds,
    /// `None` when the timeout was cleared.
    CommunicationDisabledUntil { new: Option<i64> },
    /// Any other change.
    Other,
}

/// What the sync reads of an audit log entry: its action code and changes.
#[derive(Debug, Clone)]
pub struct AuditEntry {
    pub action_code: u8,
    pub changes: Option<Vec<AuditChange>>,
}

/// The new timeout end of the first timeout change, if there is one.
pub open spec fn first_timeout_change(changes: Seq<AuditChange>) -> Option<Option<i64>>
    decreases changes.len(),
{
    if changes.len() == 0 {
        None
    } else {
        match changes[0] {
            AuditChange::CommunicationDisabledUntil { new } => Some(new),
            AuditChange::Other => first_timeout_change(changes.drop_first()),
        }
    }
}

/// The changes of an entry (none when it carries no list).
pub open spec fn entry_changes(e: AuditEntry) -> Seq<AuditChange> {
    match e.changes {
        Some(v) => v@,
        None => Seq::empty(),
    }
}

/// A member update is a mute when its timeout ends after `now` (for the time
/// left, in seconds), an unmute when the timeout was cleared or already over,
/// and nothing when it did not touch the timeout.
pub open spec fn spec_map_timeout_update(e: AuditEntry, now: i64) -> Option<(ActionType, Option<i64>)> {
    match first_timeout_change(entry_changes(e)) {
        None => None,
        Some(None) => Some((ActionType::Unmute, None)),
        Some(Some(until)) => if until - now > 0 {
            Some((ActionType::Mute, Some((until - now) as i64)))
        } else {
            Some((ActionType::Unmute, None))
        },
    }
}

/// The moderation action an audit log entry stands for, with its duration in
/// seconds; `None` for entries outside the kick/ban/timeout family.
pub open spec fn spec_map_audit_action(e: AuditEntry, now: i64) -> Option<(ActionType, Option<i64>)> {
    if e.action_code == AUDIT_MEMBER_KICK {
        Some((ActionType::Kick, None))
    } else if e.action_code == AUDIT_MEMBER_BAN_ADD {
        Some((ActionType::Ban, None))
    } else if e.action_code == AUDIT_MEMBER_BAN_REMOVE {
        Some((ActionType::Unban, None))
    } else if e.action_code == AUDIT_MEMBER_UPDATE {
        spec_map_timeout_update(e, now)
    } else {
        None
    }
}

/// The time left of a timeout fits a `chrono::TimeDelta` (which panics
/// otherwise); true of every entry that is not a future timeout.
pub open spec fn timeout_fits(e: AuditEntry, now: i64) -> bool {
    e.action_code == AUDIT_MEMBER_UPDATE ==> match first_timeout_change(entry_changes(e)) {
        Some(Some(until)) => until - now <= MAX_DELTA_SECS,
        _ => true,
    }
}

/// Finds the new timeout end of the first timeout change.
fn find_timeout_change(changes: &Vec<AuditChange>) -> (r: Option<Option<i64>>)
    ensures
        r == first_timeout_change(changes@),
{
    let mut k: usize = 0;
    proof {
        assert(changes@.skip(0) =~= changes@);
    }
    while k < changes.len()
        invariant
            k <= changes@.len(),
            first_timeout_change(changes@) == first_timeout_change(changes@.skip(k as int)),
        decreases changes@.len() - k,
    {
        match changes[k] {
            AuditChange::CommunicationDisabledUntil { new } => return Some(new),
            AuditChange::Other => {},
        }
        proof {
            assert(changes@.skip(k as int).drop_first() =~= changes@.skip(k as int + 1));
        }
        k = k + 1;
    }
    None
}

/// Maps an audit log entry to a moderation action, measuring a timeout against
/// `now` (unix seconds).
pub fn map_audit_action_at(e: &AuditEntry, now: i64) -> (r: Option<(ActionType, Option<i64>)>)
    requires
        timeout_fits(*e, now),
    ensures
        r == spec_map_audit_action(*e, now),
{
    if e.action_code == AUDIT_MEMBER_KICK {
        Some((ActionType::Kick, None))
    } else if e.action_code == AUDIT_MEMBER_BAN_ADD {
        Some((ActionType::Ban, None))
    } else if e.action_code == AUDIT_MEMBER_BAN_REMOVE {
        Some((ActionType::Unban, None))
    } else if e.action_code == AUDIT_MEMBER_UPDATE {
        let found = match &e.changes {
            Some(v) => find_timeout_change(v),
            None => {
                proof {
                    assert(entry_changes(*e) =~= Seq::<AuditChange>::empty());
                }
                None
            },
        };
        match found {
            None => None,
            Some(None) => Some((ActionType::Unmute, None)),
            Some(Some(until)) => {
                let remaining: i128 = until as i128 - now as i128;
                if remaining > 0 {
                    Some((ActionType::Mute, Some(remaining as i64)))
                } else {
                    Some((ActionType::Unmute, None))
                }
            },
        }
    } else {
        None
    }
}

/// The unix timestamp of the last second chrono can represent (December 31,
/// 262142, 23:59:59 UTC).
pub const CHRONO_MAX_TIMESTAMP: i64 = 8_210_266_876_799;

/// `chrono::Utc::now().timestamp()`: the current time in unix seconds. Its
/// source returns only when the system clock reads after the unix epoch and
/// within chrono's range (it panics otherwise), so the result is never
/// negative nor past chrono's last second; which time is read is not stated.
#[verifier::external_body]
pub(crate) fn now_unix_secs() -> (r: i64)
    ensures
        0 <= r <= CHRONO_MAX_TIMESTAMP,
{
    chrono::Utc::now().timestamp()
}

/// Maps an audit log entry to a moderation action against the current time.
/// Kicks and bans do not depend on the clock; a timeout is measured against
/// whatever time was read. An entry whose timeout would not fit a duration
/// (an end further than 292 million years away) maps to nothing; every other
/// timeout change maps to a mute or an unmute.
pub fn map_audit_action(e: &AuditEntry) -> (r: Option<(ActionType, Option<i64>)>)
    ensures
        exists|now: i64|
            0 <= now <= CHRONO_MAX_TIMESTAMP && ((timeout_fits(*e, now) && r == spec_map_audit_action(
                *e,
                now,
            )) || (!timeout_fits(*e, now) && r is None)),
        e.action_code != AUDIT_MEMBER_UPDATE ==> r == spec_map_audit_action(*e, 0),
        e.action_code == AUDIT_MEMBER_UPDATE && first_timeout_change(entry_changes(*e)) is Some && (
        first_timeout_change(entry_changes(*e)) matches Some(Some(u)) ==> u <= MAX_DELTA_SECS)
            ==> r is Some,
{
    let now = now_unix_secs();
    let fits = if e.action_code == AUDIT_MEMBER_UPDATE {
        let found = match &e.changes {
            Some(v) => find_timeout_change(v),
            None => {
                proof {
                    assert(entry_changes(*e) =~= Seq::<AuditChange>::empty());
                }
                None
            },
        };
        match found {
            Some(Some(until)) => (until as i128) - (now as i128) <= MAX_DELTA_SECS as i128,
            _ => true,
        }
    } else {
        true
    };
    if fits {
        map_audit_action_at(e, now)
    } else {
        None
    }
}

/// A native moderation action to copy into the moderation log.
#[derive(Debug, Clone, Copy, PartialEq, Eq, Structural)]
pub struct AuditSync {
    pub action: ActionType,
    pub duration_secs: Option<i64>,
    pub target_id: u64,
    pub moderator_id: u64,
}

/// Decides whether an audit log entry is copied into the moderation log: only
/// entries that map to a moderation action, that the bot did not make itself
/// (its own actions are logged when issued), and that name a target.
pub fn audit_sync_plan(
    mapped: Option<(ActionType, Option<i64>)>,
    moderator_id: u64,
    bot_id: u64,
    target_id: Option<u64>,
) -> (r: Option<AuditSync>)
    ensures
        match mapped {
            None => r is None,
            Some((action, duration_secs)) => if moderator_id == bot_id {
                r is None
            } else {
                match target_id {
                    None => r is None,
                    Some(t) => r == Some(AuditSync { action, duration_secs, target_id: t, moderator_id }),
                }
            },
        },
{
    let (action, duration_secs) = match mapped {
        Some(m) => m,
        None => return None,
    };
    if moderator_id == bot_id {
        return None;
    }
    match target_id {
        Some(t) => Some(AuditSync { action, duration_secs, target_id: t, moderator_id }),
        None => None,
    }
}

} // verus!
