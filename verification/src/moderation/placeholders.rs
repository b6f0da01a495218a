//! Moderation placeholders (`{reason}`, `{moderator.username}`, `{duration}`,
//! ...) used in custom moderation messages.

use crate::moderation::durations::{human_format, human_format_of};
use crate::text::{contains_str, contains_seq, decimal, eq_str, starts_with_seq, starts_with_str, to_owned_str, u64_to_string};
use vstd::prelude::*;

verus! {

/// The moderator named in a message.
#[derive(Debug, Clone)]
pub struct ModeratorRef {
    pub name: String,
    pub id: u64,
}

/// The moderation facts a message template may refer to.
#[derive(Debug, Clone)]
pub struct ModerationCtx {
    pub reason: Option<String>,
    pub moderator: Option<ModeratorRef>,
    pub invite_url: Option<String>,
    /// Whole seconds and sub-second nanoseconds.
    pub duration: Option<(u64, u32)>,
}

/// What the placeholder `key` stands for in this context, if it is known.
pub open spec fn spec_resolve(ctx: ModerationCtx, key: Seq<char>) -> Option<Seq<char>> {
    if starts_with_seq(key, "moderator"@) {
        match ctx.moderator {
            None => None,
            Some(m) => if key == "moderator.username"@ {
                Some(m.name@)
            } else if key == "moderator.id"@ {
                Some(decimal(m.id as nat))
            } else {
                None
            },
        }
    } else if key == "reason"@ {
        Some(
            match ctx.reason {
                Some(r) => r@,
                None => Seq::empty(),
            },
        )
    } else if key == "invite.url"@ {
        Some(
            match ctx.invite_url {
                Some(u) => u@,
                None => "<there was no invite URL. Please ask the server owner for one.>"@,
            },
        )
    } else if key == "duration"@ {
        Some(
            match ctx.duration {
                Some((s, n)) => human_format_of(s, n),
                None => Seq::empty(),
            },
        )
    } else {
        None
    }
}

/// A string of the same characters as an optional string, or the default.
fn owned_or(s: &Option<String>, default: &str) -> (r: String)
    ensures
        r@ == match s {
            Some(t) => t@,
            None => default@,
        },
{
    match s {
        Some(t) => t.clone(),
        None => to_owned_str(default),
    }
}

impl ModerationCtx {
    /// Every duration carried has fewer than a billion nanoseconds.
    pub open spec fn wf(&self) -> bool {
        self.duration matches Some((s, n)) ==> n < 1_000_000_000
    }

    /// Resolves one placeholder key.
    pub fn resolve(&self, key: &str) -> (r: Option<String>)
        requires
            self.wf(),
        ensures
            match r {
                Some(v) => spec_resolve(*self, key@) == Some(v@),
                None => spec_resolve(*self, key@) is None,
            },
    {
        if starts_with_str(key, "moderator") {
            let m = match &self.moderator {
                Some(m) => m,
                None => return None,
            };
            if eq_str(key, "moderator.username") {
                return Some(m.name.clone());
            } else if eq_str(key, "moderator.id") {
                return Some(u64_to_string(m.id));
            } else {
                return None;
            }
        }
        if eq_str(key, "reason") {
            proof {
                reveal_strlit("");
            }
            Some(owned_or(&self.reason, ""))
        } else if eq_str(key, "invite.url") {
            Some(owned_or(&self.invite_url, "<there was no invite URL. Please ask the server owner for one.>"))
        } else if eq_str(key, "duration") {
            Some(
                match self.duration {
                    Some((s, n)) => human_format(s, n),
                    None => String::new(),
                },
            )
        } else {
            None
        }
    }

    /// The context of a kick message.
    pub fn for_kick(reason: String, moderator: ModeratorRef, invite_url: Option<String>) -> (r: Self)
        ensures
            r == (ModerationCtx { reason: Some(reason), moderator: Some(moderator), invite_url, duration: None }),
    {
        ModerationCtx { reason: Some(reason), moderator: Some(moderator), invite_url, duration: None }
    }

    /// The context of a message that carries a reason (ban, softban).
    pub fn for_reason(reason: String, moderator: ModeratorRef) -> (r: Self)
        ensures
            r == (ModerationCtx { reason: Some(reason), moderator: Some(moderator), invite_url: None, duration: None }),
    {
        ModerationCtx { reason: Some(reason), moderator: Some(moderator), invite_url: None, duration: None }
    }

    /// The context of a mute message.
    pub fn for_mute(reason: String, moderator: ModeratorRef, duration: (u64, u32)) -> (r: Self)
        ensures
            r == (ModerationCtx {
                reason: Some(reason),
                moderator: Some(moderator),
                invite_url: None,
                duration: Some(duration),
            }),
    {
        ModerationCtx { reason: Some(reason), moderator: Some(moderator), invite_url: None, duration: Some(duration) }
    }

    /// The context of a message without a reason (unmute).
    pub fn for_moderator(moderator: ModeratorRef) -> (r: Self)
        ensures
            r == (ModerationCtx { reason: None, moderator: Some(moderator), invite_url: None, duration: None }),
    {
        ModerationCtx { reason: None, moderator: Some(moderator), invite_url: None, duration: None }
    }

    /// The context of a ban the bot issues itself.
    pub fn for_system_ban(duration: Option<(u64, u32)>) -> (r: Self)
        ensures
            r == (ModerationCtx { reason: None, moderator: None, invite_url: None, duration }),
    {
        ModerationCtx { reason: None, moderator: None, invite_url: None, duration }
    }
}

/// Whether a kick message refers to `invite.url` in its content, embed
/// description or embed title, so an invite must be created for it.
pub fn mentions_invite(content: &str, description: Option<&str>, title: Option<&str>) -> (r: bool)
    ensures
        r == (contains_seq(content@, "invite.url"@) || (description matches Some(d) && contains_seq(
            d@,
            "invite.url"@,
        )) || (title matches Some(t) && contains_seq(t@, "invite.url"@))),
{
    if contains_str(content, "invite.url") {
        return true;
    }
    let in_description = match description {
        Some(d) => contains_str(d, "invite.url"),
        None => false,
    };
    if in_description {
        return true;
    }
    match title {
        Some(t) => contains_str(t, "invite.url"),
        None => false,
    }
}

/// The link of a created invite.
pub fn invite_link(code: &str) -> (r: String)
    ensures
        r@ == "https://discord.gg/"@ + code@,
{
    let mut r = String::from_str("https://discord.gg/");
    r.append(code);
    r
}

} // verus!
