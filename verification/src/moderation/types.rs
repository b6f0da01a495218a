//! Moderation records shared by the commands, the audit-log sync and the
//! temporary-ban worker.

use vstd::prelude::*;

verus! {

/// The kind of moderation action performed on a user.
#[derive(Debug, Clone, Copy, PartialEq, Eq, Structural)]
pub enum ActionType {
    /// Issue a formal warning.
    Warn,
    /// Remove a previous warning.
    DeleteWarning,
    /// Mute the user.
    Mute,
    /// Unmute the user.
    Unmute,
    /// Kick the user from the guild.
    Kick,
    /// Ban the user from the guild.
    Ban,
    /// Remove the user's ban.
    Unban,
    /// Ban and immediately unban, deleting recent messages.
    Softban,
    /// Lock the channel.
    Lock,
    /// Pardon a previous action.
    Pardon,
    /// Remove a pardon.
    Unpardon,
    /// Unlock the channel.
    Unlock,
    /// Lock all channels in the guild.
    GlobalLock,
    /// Unlock all channels in the guild.
    GlobalUnlock,
}

/// How an action is stored in the `action_type` column: its name in
/// SCREAMING_SNAKE_CASE.
pub open spec fn spec_db_name(a: ActionType) -> Seq<char> {
    match a {
        ActionType::Warn => "WARN"@,
        ActionType::DeleteWarning => "DELETE_WARNING"@,
        ActionType::Mute => "MUTE"@,
        ActionType::Unmute => "UNMUTE"@,
        ActionType::Kick => "KICK"@,
        ActionType::Ban => "BAN"@,
        ActionType::Unban => "UNBAN"@,
        ActionType::Softban => "SOFTBAN"@,
        ActionType::Lock => "LOCK"@,
        ActionType::Pardon => "PARDON"@,
        ActionType::Unpardon => "UNPARDON"@,
        ActionType::Unlock => "UNLOCK"@,
        ActionType::GlobalLock => "GLOBAL_LOCK"@,
        ActionType::GlobalUnlock => "GLOBAL_UNLOCK"@,
    }
}

impl ActionType {
    /// The database label of the action.
    pub fn db_name(&self) -> (r: &'static str)
        ensures
            r@ == spec_db_name(*self),
    {
        match self {
            ActionType::Warn => "WARN",
            ActionType::DeleteWarning => "DELETE_WARNING",
            ActionType::Mute => "MUTE",
            ActionType::Unmute => "UNMUTE",
            ActionType::Kick => "KICK",
            ActionType::Ban => "BAN",
            ActionType::Unban => "UNBAN",
            ActionType::Softban => "SOFTBAN",
            ActionType::Lock => "LOCK",
            ActionType::Pardon => "PARDON",
            ActionType::Unpardon => "UNPARDON",
            ActionType::Unlock => "UNLOCK",
            ActionType::GlobalLock => "GLOBAL_LOCK",
            ActionType::GlobalUnlock => "GLOBAL_UNLOCK",
        }
    }
}

/// A temporary ban record tracked in the database.
#[derive(Debug, Clone, Copy, PartialEq, Eq, Structural)]
pub struct TempBanRecord {
    /// ID of the temp ban record.
    pub id: i64,
    /// Guild the ban belongs to.
    pub guild_id: i64,
    /// User who is temporarily banned.
    pub user_id: i64,
}

/// Most expired temporary bans fetched per worker pass.
pub const EXPIRED_TEMP_BAN_BATCH: usize = 200;

/// Footer appended to moderation embeds.
pub const MODERATION_FOOTER: &'static str = "If you believe this was a mistake, please contact an administrator.";

} // verus!
