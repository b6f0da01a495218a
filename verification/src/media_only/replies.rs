//! What members and moderators are told about media-only channels.

use crate::media_only::types::MediaOnlyChannel;
use crate::text::{decimal, push_decimal, push_signed_decimal, signed_decimal};
use vstd::prelude::*;

verus! {

/// Most characters of a deleted message quoted back to its author.
pub const DM_QUOTE_LIMIT: usize = 1800;

/// The quoted content: cut to its first 1800 characters, then `...`, when it
/// is longer.
pub open spec fn spec_truncated(content: Seq<char>) -> Seq<char> {
    if content.len() > 1800 {
        content.take(1800) + "..."@
    } else {
        content
    }
}

/// Cuts a deleted message for quoting.
pub fn truncated_content(content: &str) -> (r: String)
    ensures
        r@ == spec_truncated(content@),
{
    let n = content.unicode_len();
    if n > DM_QUOTE_LIMIT {
        let mut r = String::from_str(content.substring_char(0, DM_QUOTE_LIMIT));
        r.append("...");
        r
    } else {
        String::from_str(content)
    }
}

/// The private message sent to the author of a deleted message.
pub open spec fn spec_violation_dm(channel_id: u64, content: Seq<char>) -> Seq<char> {
    "Your message has been deleted in <#"@ + decimal(channel_id as nat)
        + "> as that is a media-only channel.\n"@ + if content.len() == 0 {
        Seq::empty()
    } else {
        "Original content:\n```\n"@ + spec_truncated(content) + "```\n"@
    }
}

/// Writes the private message quoting a deleted message.
pub fn violation_dm(channel_id: u64, content: &str) -> (r: String)
    ensures
        r@ == spec_violation_dm(channel_id, content@),
{
    let mut r = String::from_str("Your message has been deleted in <#");
    push_decimal(&mut r, channel_id);
    r.append("> as that is a media-only channel.\n");
    if content.unicode_len() > 0 {
        let t = truncated_content(content);
        r.append("Original content:\n```\n");
        r.append(t.as_str());
        r.append("```\n");
    } else {
        proof {
            assert(r@ + Seq::<char>::empty() =~= r@);
        }
    }
    r
}

/// The warning posted in the channel, mentioning the author.
pub fn violation_warning(author_id: u64) -> (r: String)
    ensures
        r@ == "<@"@ + decimal(author_id as nat)
            + ">, Your message has been deleted as this is a media-only channel."@,
{
    let mut r = String::from_str("<@");
    push_decimal(&mut r, author_id);
    r.append(">, Your message has been deleted as this is a media-only channel.");
    r
}

/// The error for a negative warning delay.
pub open spec fn negative_delay_message() -> Seq<char> {
    "Cannot cast i16 to u64. Is it negative?"@
}

/// Seconds before the warning is removed; a negative setting is an error. A
/// delay of 0 means no warning is posted.
pub fn warning_delay(delete_warning_after_secs: i16) -> (r: Result<u64, &'static str>)
    ensures
        delete_warning_after_secs >= 0 ==> r == Ok::<u64, &'static str>(delete_warning_after_secs as u64),
        delete_warning_after_secs < 0 ==> (r matches Err(m) && m@ == negative_delay_message()),
{
    if delete_warning_after_secs < 0 {
        Err("Cannot cast i16 to u64. Is it negative?")
    } else {
        Ok(delete_warning_after_secs as u64)
    }
}

/// What the `set` command does.
#[derive(Debug, Clone)]
pub enum SetOutcome {
    /// Nothing is stored; the reply says the rule is already on.
    AlreadyEnabled { reply: String },
    /// The rule is stored, enabled, and the reply confirms it.
    Store { config: MediaOnlyChannel, reply: String },
}

/// Decides the `set` command from the channel's stored rule. A channel without
/// a rule starts from the defaults with the rule already marked enabled, so it
/// too is answered as already enabled and nothing is stored.
pub fn set_decision(existing: Option<MediaOnlyChannel>, channel_id: u64, guild_id: u64) -> (r: SetOutcome)
    ensures
        match existing {
            Some(c) => if c.enabled {
                r matches SetOutcome::AlreadyEnabled { reply } && reply@
                    == "Media-only mode is already enabled for <#"@ + decimal(channel_id as nat) + ">"@
            } else {
                r matches SetOutcome::Store { config, reply } && config.enabled && config.channel_id
                    == channel_id && config.guild_id == guild_id && config.allowed_media
                    == c.allowed_media && config.auto_thread == c.auto_thread
                    && config.thread_name_template == c.thread_name_template
                    && config.delete_warning_after_secs == c.delete_warning_after_secs
                    && config.exempt_roles == c.exempt_roles && reply@
                    == "Enforcing media-only mode on <#"@ + decimal(channel_id as nat) + ">"@
            },
            None => r matches SetOutcome::AlreadyEnabled { reply } && reply@
                == "Media-only mode is already enabled for <#"@ + decimal(channel_id as nat) + ">"@,
        },
{
    let mut config = match existing {
        Some(c) => c,
        None => {
            let d = MediaOnlyChannel::default();
            MediaOnlyChannel { channel_id, guild_id, enabled: true, ..d }
        },
    };
    if config.enabled {
        let mut reply = String::from_str("Media-only mode is already enabled for <#");
        push_decimal(&mut reply, channel_id);
        reply.append(">");
        return SetOutcome::AlreadyEnabled { reply };
    }
    config.enabled = true;
    config.channel_id = channel_id;
    config.guild_id = guild_id;
    let mut reply = String::from_str("Enforcing media-only mode on <#");
    push_decimal(&mut reply, channel_id);
    reply.append(">");
    SetOutcome::Store { config, reply }
}

/// The reply of the `disable` command.
pub fn disable_reply(channel_id: u64, was_deleted: bool) -> (r: String)
    ensures
        was_deleted ==> r@ == "Disabled media-only mode for <#"@ + decimal(channel_id as nat) + ">"@,
        !was_deleted ==> r@ == "Media-only mode was not enabled for <#"@ + decimal(channel_id as nat)
            + ">, ignoring"@,
{
    if was_deleted {
        let mut r = String::from_str("Disabled media-only mode for <#");
        push_decimal(&mut r, channel_id);
        r.append(">");
        r
    } else {
        let mut r = String::from_str("Media-only mode was not enabled for <#");
        push_decimal(&mut r, channel_id);
        r.append(">, ignoring");
        r
    }
}

/// The role mentions joined by `, `.
pub open spec fn spec_role_mentions(roles: Seq<u64>) -> Seq<char>
    decreases roles.len(),
{
    if roles.len() == 0 {
        Seq::empty()
    } else if roles.len() == 1 {
        "<@&"@ + decimal(roles[0] as nat) + ">"@
    } else {
        spec_role_mentions(roles.drop_last()) + ", <@&"@ + decimal(roles.last() as nat) + ">"@
    }
}

/// The exempt roles shown by `info`: none for an unset or empty list.
pub fn exempt_roles_text(roles: &Option<Vec<u64>>) -> (r: Option<String>)
    ensures
        match roles {
            Some(v) => if v@.len() == 0 {
                r is None
            } else {
                r matches Some(t) && t@ == spec_role_mentions(v@)
            },
            None => r is None,
        },
{
    let v = match roles {
        Some(v) => v,
        None => return None,
    };
    if v.len() == 0 {
        return None;
    }
    let mut r = String::from_str("<@&");
    push_decimal(&mut r, v[0]);
    r.append(">");
    let mut i: usize = 1;
    proof {
        assert(v@.take(1).len() == 1);
        assert(v@.take(1)[0] == v@[0]);
    }
    while i < v.len()
        invariant
            1 <= i <= v@.len(),
            r@ == spec_role_mentions(v@.take(i as int)),
        decreases v@.len() - i,
    {
        proof {
            assert(v@.take(i as int + 1).drop_last() =~= v@.take(i as int));
        }
        r.append(", <@&");
        push_decimal(&mut r, v[i]);
        r.append(">");
        i = i + 1;
    }
    proof {
        assert(v@.take(v@.len() as int) =~= v@);
    }
    Some(r)
}

/// How `info` shows whether something is allowed.
pub fn status_label(allowed: bool) -> (r: &'static str)
    ensures
        allowed ==> r@ == "✅ Allowed"@,
        !allowed ==> r@ == "❌ Disabled"@,
{
    if allowed {
        "✅ Allowed"
    } else {
        "❌ Disabled"
    }
}

/// How `info` shows the warning delay, e.g. `5s`.
pub fn warning_delay_text(secs: i16) -> (r: String)
    ensures
        r@ == signed_decimal(secs as int) + "s"@,
{
    let mut r = String::new();
    push_signed_decimal(&mut r, secs as i64);
    r.append("s");
    r
}

/// The lines of the channel list.
pub open spec fn spec_channel_lines(ids: Seq<u64>) -> Seq<char>
    decreases ids.len(),
{
    if ids.len() == 0 {
        Seq::empty()
    } else {
        spec_channel_lines(ids.drop_last()) + "- <#"@ + decimal(ids.last() as nat) + ">\n"@
    }
}

/// The reply of the `list` command.
pub fn channel_list_text(channel_ids: &Vec<u64>) -> (r: String)
    ensures
        channel_ids@.len() == 0 ==> r@ == "No media-only set up yet."@,
        channel_ids@.len() > 0 ==> r@ == "Media only channels in this guild:\n"@ + spec_channel_lines(
            channel_ids@,
        ),
{
    if channel_ids.len() == 0 {
        return String::from_str("No media-only set up yet.");
    }
    let mut r = String::from_str("Media only channels in this guild:\n");
    let ghost head = r@;
    let mut i: usize = 0;
    while i < channel_ids.len()
        invariant
            i <= channel_ids@.len(),
            r@ == head + spec_channel_lines(channel_ids@.take(i as int)),
        decreases channel_ids@.len() - i,
    {
        proof {
            assert(channel_ids@.take(i as int + 1).drop_last() =~= channel_ids@.take(i as int));
        }
        r.append("- <#");
        push_decimal(&mut r, channel_ids[i]);
        r.append(">\n");
        i = i + 1;
    }
    proof {
        assert(channel_ids@.take(channel_ids@.len() as int) =~= channel_ids@);
    }
    r
}

} // verus!
