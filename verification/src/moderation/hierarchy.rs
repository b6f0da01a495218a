//! Role hierarchy rules that decide whether a moderator may act on a member.

use crate::text::concat2;
use std::collections::HashMap;
use vstd::prelude::*;

verus! {

broadcast use vstd::std_specs::hash::group_hash_axioms;

/// Why a moderation action was refused before it started.
#[derive(Debug, Clone, Copy, PartialEq, Eq, Structural)]
pub enum HierarchyError {
    /// The command was not run inside a server.
    OutsideGuild,
    /// The target owns the server.
    TargetIsOwner,
    /// The moderator's member record could not be fetched.
    ExecutorUnavailable,
    /// The bot's member record could not be fetched.
    BotUnavailable,
    /// The target's highest role is not below the moderator's.
    ExecutorTooLow,
    /// The target's highest role is not below the bot's.
    BotTooLow,
}

/// The text shown for each refusal.
pub open spec fn spec_hierarchy_message(e: HierarchyError) -> Seq<char> {
    match e {
        HierarchyError::OutsideGuild => "This command must be run in a server."@,
        HierarchyError::TargetIsOwner => "Cannot perform moderation actions on the server owner."@,
        HierarchyError::ExecutorUnavailable => "Failed to fetch executor member details."@,
        HierarchyError::BotUnavailable => "Failed to fetch bot member details."@,
        HierarchyError::ExecutorTooLow =>
            "You cannot moderate this user because their highest role is equal to or higher than yours."@,
        HierarchyError::BotTooLow =>
            "I cannot moderate this user because their highest role is equal to or higher than mine."@,
    }
}

impl HierarchyError {
    /// The message shown to the moderator.
    pub fn message(&self) -> (r: &'static str)
        ensures
            r@ == spec_hierarchy_message(*self),
    {
        match self {
            HierarchyError::OutsideGuild => "This command must be run in a server.",
            HierarchyError::TargetIsOwner => "Cannot perform moderation actions on the server owner.",
            HierarchyError::ExecutorUnavailable => "Failed to fetch executor member details.",
            HierarchyError::BotUnavailable => "Failed to fetch bot member details.",
            HierarchyError::ExecutorTooLow =>
                "You cannot moderate this user because their highest role is equal to or higher than yours.",
            HierarchyError::BotTooLow =>
                "I cannot moderate this user because their highest role is equal to or higher than mine.",
        }
    }
}

/// The position of role `id` in the guild's role table, which holds each role
/// once.
pub open spec fn role_position(roles: Map<u64, u16>, id: u64) -> Option<u16> {
    if roles.contains_key(id) {
        Some(roles[id])
    } else {
        None
    }
}

/// The highest position among the member's roles that the table knows; 0 (the
/// position of `@everyone`) when there is none.
pub open spec fn highest_position(member_roles: Seq<u64>, roles: Map<u64, u16>) -> u16
    decreases member_roles.len(),
{
    if member_roles.len() == 0 {
        0
    } else {
        let rest = highest_position(member_roles.drop_last(), roles);
        match role_position(roles, member_roles.last()) {
            Some(p) => if p > rest {
                p
            } else {
                rest
            },
            None => rest,
        }
    }
}

/// A member's highest role position is the maximum over the roles it holds
/// that the table knows: no known role of the member is placed higher, and it
/// is the position of one of them, or 0 when the table knows none of them.
pub proof fn law_highest_position_is_maximum(member_roles: Seq<u64>, roles: Map<u64, u16>)
    ensures
        forall|i: int|
            0 <= i < member_roles.len() && #[trigger] roles.contains_key(member_roles[i])
                ==> highest_position(member_roles, roles) >= roles[member_roles[i]],
        highest_position(member_roles, roles) == 0 || exists|i: int|
            0 <= i < member_roles.len() && roles.contains_key(member_roles[i]) && roles[member_roles[i]]
                == highest_position(member_roles, roles),
        (forall|i: int| 0 <= i < member_roles.len() ==> !roles.contains_key(member_roles[i]))
            ==> highest_position(member_roles, roles) == 0,
    decreases member_roles.len(),
{
    if member_roles.len() > 0 {
        let init = member_roles.drop_last();
        law_highest_position_is_maximum(init, roles);
        let h = highest_position(member_roles, roles);
        let rest = highest_position(init, roles);
        let n = member_roles.len() - 1;
        assert forall|i: int|
            0 <= i < member_roles.len() && #[trigger] roles.contains_key(member_roles[i]) implies h
            >= roles[member_roles[i]] by {
            if i < n {
                assert(init[i] == member_roles[i]);
                assert(roles.contains_key(init[i]));
            }
        }
        if h != 0 {
            if h == rest {
                let j = choose|j: int|
                    0 <= j < init.len() && roles.contains_key(init[j]) && roles[init[j]] == rest;
                assert(member_roles[j] == init[j]);
            } else {
                assert(roles.contains_key(member_roles[n]) && roles[member_roles[n]] == h);
            }
        }
        if forall|i: int| 0 <= i < member_roles.len() ==> !roles.contains_key(member_roles[i]) {
            assert forall|i: int| 0 <= i < init.len() implies !roles.contains_key(init[i]) by {
                assert(init[i] == member_roles[i]);
            }
        }
    }
}

/// Looks up the position of a role in the role table.
pub fn find_role_position(roles: &HashMap<u64, u16>, id: u64) -> (r: Option<u16>)
    ensures
        r == role_position(roles@, id),
{
    match roles.get(&id) {
        Some(p) => Some(*p),
        None => None,
    }
}

/// The highest role position of a member (0 when none of its roles is known).
pub fn get_highest_role_pos(member_roles: &Vec<u64>, roles: &HashMap<u64, u16>) -> (r: u16)
    ensures
        r == highest_position(member_roles@, roles@),
{
    let mut best: u16 = 0;
    let mut i: usize = 0;
    while i < member_roles.len()
        invariant
            i <= member_roles@.len(),
            best == highest_position(member_roles@.take(i as int), roles@),
        decreases member_roles@.len() - i,
    {
        proof {
            assert(member_roles@.take(i as int + 1).drop_last() =~= member_roles@.take(i as int));
        }
        match find_role_position(roles, member_roles[i]) {
            Some(p) => {
                if p > best {
                    best = p;
                }
            },
            None => {},
        }
        i = i + 1;
    }
    proof {
        assert(member_roles@.take(member_roles@.len() as int) =~= member_roles@);
    }
    best
}

/// The hierarchy rule: the server owner only needs the bot to outrank the
/// target; anyone else must outrank the target, and so must the bot.
pub open spec fn spec_validate_hierarchy(
    executor_id: u64,
    owner_id: u64,
    executor_pos: u16,
    target_pos: u16,
    bot_pos: u16,
) -> Result<(), HierarchyError> {
    if executor_id == owner_id {
        if bot_pos <= target_pos {
            Err(HierarchyError::BotTooLow)
        } else {
            Ok(())
        }
    } else if executor_pos <= target_pos {
        Err(HierarchyError::ExecutorTooLow)
    } else if bot_pos <= target_pos {
        Err(HierarchyError::BotTooLow)
    } else {
        Ok(())
    }
}

/// Validates highest-role positions of the moderator, the target and the bot.
pub fn validate_hierarchy(
    executor_id: u64,
    owner_id: u64,
    executor_pos: u16,
    target_pos: u16,
    bot_pos: u16,
) -> (r: Result<(), HierarchyError>)
    ensures
        r == spec_validate_hierarchy(executor_id, owner_id, executor_pos, target_pos, bot_pos),
{
    if executor_id == owner_id {
        if bot_pos <= target_pos {
            return Err(HierarchyError::BotTooLow);
        }
        return Ok(());
    }
    if executor_pos <= target_pos {
        return Err(HierarchyError::ExecutorTooLow);
    }
    if bot_pos <= target_pos {
        return Err(HierarchyError::BotTooLow);
    }
    Ok(())
}

/// What the hierarchy check knows about a guild: whether the command ran in
/// one, its owner, the role table, and the member records that could be
/// fetched (`None` where the target is not a member or a fetch failed).
pub struct HierarchyFacts {
    pub in_guild: bool,
    pub author_id: u64,
    pub owner_id: u64,
    pub target_id: u64,
    pub target_roles: Option<Vec<u64>>,
    pub executor_roles: Option<Vec<u64>>,
    pub bot_roles: Option<Vec<u64>>,
    pub roles: HashMap<u64, u16>,
}

/// The outcome of the full hierarchy check: outside a server it refuses; the
/// owner can never be targeted; a target that is not a member (a ban of a user
/// who never joined) is not checked further; otherwise both other members must
/// be known and the positions must pass `spec_validate_hierarchy`.
pub open spec fn spec_check_hierarchy(f: HierarchyFacts) -> Result<(), HierarchyError> {
    if !f.in_guild {
        Err(HierarchyError::OutsideGuild)
    } else if f.target_id == f.owner_id {
        Err(HierarchyError::TargetIsOwner)
    } else {
        match f.target_roles {
            None => Ok(()),
            Some(t) => match f.executor_roles {
                None => Err(HierarchyError::ExecutorUnavailable),
                Some(e) => match f.bot_roles {
                    None => Err(HierarchyError::BotUnavailable),
                    Some(b) => spec_validate_hierarchy(
                        f.author_id,
                        f.owner_id,
                        highest_position(e@, f.roles@),
                        highest_position(t@, f.roles@),
                        highest_position(b@, f.roles@),
                    ),
                },
            },
        }
    }
}

/// Runs the role hierarchy check on what was fetched about the guild.
pub fn check_hierarchy(f: &HierarchyFacts) -> (r: Result<(), HierarchyError>)
    ensures
        r == spec_check_hierarchy(*f),
{
    if !f.in_guild {
        return Err(HierarchyError::OutsideGuild);
    }
    if f.target_id == f.owner_id {
        return Err(HierarchyError::TargetIsOwner);
    }
    match &f.target_roles {
        None => Ok(()),
        Some(t) => match &f.executor_roles {
            None => Err(HierarchyError::ExecutorUnavailable),
            Some(e) => match &f.bot_roles {
                None => Err(HierarchyError::BotUnavailable),
                Some(b) => {
                    let executor_pos = get_highest_role_pos(e, &f.roles);
                    let target_pos = get_highest_role_pos(t, &f.roles);
                    let bot_pos = get_highest_role_pos(b, &f.roles);
                    validate_hierarchy(f.author_id, f.owner_id, executor_pos, target_pos, bot_pos)
                },
            },
        },
    }
}

/// What the pre-flight check of a moderation command decides.
#[derive(Debug, Clone, PartialEq, Eq)]
pub enum PreFlight {
    /// The moderator targeted themselves; the reply is sent privately.
    SelfModeration { reply: String },
    /// The hierarchy check refused the action.
    Denied { reply: String },
    /// The action may go ahead.
    Proceed,
}

/// Runs the pre-flight checks of a moderation command: self-moderation first,
/// then the role hierarchy.
pub fn pre_flight_check(action_name: &str, f: &HierarchyFacts) -> (r: PreFlight)
    ensures
        f.author_id == f.target_id ==> r is SelfModeration && r->SelfModeration_reply@
            == "You cannot "@ + action_name@ + " yourself!"@,
        f.author_id != f.target_id ==> match spec_check_hierarchy(*f) {
            Ok(()) => r == PreFlight::Proceed,
            Err(e) => r is Denied && r->Denied_reply@ == "❌ Action Denied: "@
                + spec_hierarchy_message(e),
        },
{
    if f.author_id == f.target_id {
        let mut reply = concat2("You cannot ", action_name);
        reply.append(" yourself!");
        return PreFlight::SelfModeration { reply };
    }
    match check_hierarchy(f) {
        Ok(()) => PreFlight::Proceed,
        Err(e) => PreFlight::Denied { reply: concat2("❌ Action Denied: ", e.message()) },
    }
}

/// An approved action never targets someone the bot does not outrank, and a
/// moderator other than the owner must outrank the target too.
pub proof fn law_approved_action_outranks_target(f: HierarchyFacts)
    requires
        spec_check_hierarchy(f) is Ok,
        f.target_roles is Some,
    ensures
        f.target_id != f.owner_id,
        highest_position(f.bot_roles->0@, f.roles@) > highest_position(
            f.target_roles->0@,
            f.roles@,
        ),
        f.author_id != f.owner_id ==> highest_position(f.executor_roles->0@, f.roles@)
            > highest_position(f.target_roles->0@, f.roles@),
{
}

} // verus!
