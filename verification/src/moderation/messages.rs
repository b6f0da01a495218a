//! Replies of the lockdown commands and the default moderation messages sent to
//! members.

use crate::text::{decimal, push_decimal};
use vstd::prelude::*;

verus! {

/// The reply when a server-wide lock is already running.
pub const GLOBAL_LOCK_BUSY: &'static str = "Global lockdown is already in progress. Please wait a moment and try again.";

/// The reply when a server-wide unlock is already running.
pub const GLOBAL_UNLOCK_BUSY: &'static str = "Global unlock is already in progress. Please wait a moment and try again.";

/// The reply after a channel was locked.
pub fn lock_reply(channel_id: u64, reason: &str) -> (r: String)
    ensures
        r@ == "🔒 <#"@ + decimal(channel_id as nat) + "> has been locked down. \n**Reason:** "@ + reason@,
{
    let mut r = String::from_str("🔒 <#");
    push_decimal(&mut r, channel_id);
    r.append("> has been locked down. \n**Reason:** ");
    r.append(reason);
    r
}

/// The reply after a channel was unlocked.
pub fn unlock_reply(channel_id: u64) -> (r: String)
    ensures
        r@ == "🔓 <#"@ + decimal(channel_id as nat) + "> has been unlocked."@,
{
    let mut r = String::from_str("🔓 <#");
    push_decimal(&mut r, channel_id);
    r.append("> has been unlocked.");
    r
}

/// The reply after a server-wide lock.
pub fn global_lock_reply(succeeded: usize, reason: &str) -> (r: String)
    ensures
        r@ == "🛑 **Global lockdown complete.** Locked "@ + decimal(succeeded as nat)
            + " text channels. \n**Reason:** "@ + reason@,
{
    let mut r = String::from_str("🛑 **Global lockdown complete.** Locked ");
    push_decimal(&mut r, succeeded as u64);
    r.append(" text channels. \n**Reason:** ");
    r.append(reason);
    r
}

/// The reply after a server-wide unlock.
pub fn global_unlock_reply(succeeded: usize) -> (r: String)
    ensures
        r@ == "🔓 **Global unlock complete.** Unlocked "@ + decimal(succeeded as nat) + " text channels."@,
{
    let mut r = String::from_str("🔓 **Global unlock complete.** Unlocked ");
    push_decimal(&mut r, succeeded as u64);
    r.append(" text channels.");
    r
}

/// The moderation actions that send a default message to the member.
#[derive(Debug, Clone, Copy, PartialEq, Eq, Structural)]
pub enum DmAction {
    Kick,
    Ban,
    Mute,
    Unmute,
    Softban,
}

/// The title of the default message sent to a member.
pub open spec fn spec_dm_title(action: DmAction, guild_name: Seq<char>) -> Seq<char> {
    match action {
        DmAction::Kick => "You have been kicked from "@ + guild_name,
        DmAction::Ban => "You have been banned from "@ + guild_name,
        DmAction::Mute => "You have been muted from "@ + guild_name,
        DmAction::Unmute => "You have been unmuted from "@ + guild_name + "!"@,
        DmAction::Softban => "You have been soft-banned from "@ + guild_name,
    }
}

/// Writes the title of the default message sent to a member.
pub fn dm_title(action: DmAction, guild_name: &str) -> (r: String)
    ensures
        r@ == spec_dm_title(action, guild_name@),
{
    let mut r = String::from_str(
        match action {
            DmAction::Kick => "You have been kicked from ",
            DmAction::Ban => "You have been banned from ",
            DmAction::Mute => "You have been muted from ",
            DmAction::Unmute => "You have been unmuted from ",
            DmAction::Softban => "You have been soft-banned from ",
        },
    );
    r.append(guild_name);
    match action {
        DmAction::Unmute => r.append("!"),
        _ => {},
    }
    r
}

/// The embed colour of the default message.
pub fn dm_color(action: DmAction) -> (r: u32)
    ensures
        r == match action {
            DmAction::Kick => 0xff8a42u32,
            DmAction::Ban | DmAction::Softban => 0xFF4747u32,
            DmAction::Mute | DmAction::Unmute => 0xFFC54Fu32,
        },
{
    match action {
        DmAction::Kick => 0xff8a42,
        DmAction::Ban | DmAction::Softban => 0xFF4747,
        DmAction::Mute | DmAction::Unmute => 0xFFC54F,
    }
}

/// The notice added to a softban message.
pub const SOFTBAN_NOTICE: &'static str = "You have been banned and immediately unbanned to purge your messages.";

} // verus!
