//! Logging deleted and edited messages: the shared cache of messages, who
//! deleted a message, and the payloads published to the live feed.

use crate::message_logging::types::{
    spec_delete_enabled, spec_edit_enabled, DeletedMessagePayload, DistributedCachedMessage, EditDetails,
    MessageDetails, MessageLoggingConfig, ModifiedMessagePayload,
};
use crate::message_logging::filters::{AttachmentInfo, CachedMessage};
use crate::text::{decimal, push_decimal};
use std::collections::HashMap;
use vstd::prelude::*;

verus! {

broadcast use vstd::std_specs::hash::group_hash_axioms;

/// Seconds a message stays in the shared cache.
pub const MESSAGE_CACHE_TTL_SECS: i64 = 18000;

/// Most audit log entries read when looking for who deleted a message.
pub const DELETE_AUDIT_LIMIT: u8 = 10;

/// Milliseconds waited for the audit log to catch up before reading it.
pub const AUDIT_LOG_DELAY_MS: u64 = 800;

/// Pub/sub channel of deleted messages.
pub const DELETES_CHANNEL: &'static str = "discord:deletes";

/// Pub/sub channel of edited messages.
pub const UPDATES_CHANNEL: &'static str = "discord:updates";

/// The shared cache key of a message.
pub fn message_cache_key(channel_id: u64, message_id: u64) -> (r: String)
    ensures
        r@ == "msg:"@ + decimal(channel_id as nat) + ":"@ + decimal(message_id as nat),
{
    let mut r = String::from_str("msg:");
    push_decimal(&mut r, channel_id);
    r.append(":");
    push_decimal(&mut r, message_id);
    r
}

/// A message is cached for logging when a person wrote it in a guild whose
/// message logging is on.
pub fn should_cache_message(author_is_bot: bool, guild_id: Option<u64>, logging_enabled: bool) -> (r: bool)
    ensures
        r == (!author_is_bot && guild_id is Some && logging_enabled),
{
    !author_is_bot && guild_id.is_some() && logging_enabled
}

/// The URLs of the attachments, in order.
pub open spec fn attachment_urls(m: CachedMessage) -> Seq<Seq<char>> {
    m.attachments@.map_values(|a: AttachmentInfo| a.url@)
}

/// The shared cache entry of a message: its author, content and the URLs of
/// all its attachments.
pub fn shared_cache_entry(m: &CachedMessage) -> (r: DistributedCachedMessage)
    ensures
        r.author_id == m.author_id,
        r.author_name@ == m.author_name@,
        r.content@ == m.content@,
        r.image_urls@.map_values(|u: String| u@) == attachment_urls(*m),
{
    let mut urls: Vec<String> = Vec::new();
    let mut i: usize = 0;
    while i < m.attachments.len()
        invariant
            i <= m.attachments@.len(),
            urls@.map_values(|u: String| u@) =~= attachment_urls(*m).take(i as int),
        decreases m.attachments@.len() - i,
    {
        let ghost before = urls@;
        urls.push(m.attachments[i].url.clone());
        proof {
            assert(urls@.map_values(|u: String| u@) =~= before.map_values(|u: String| u@).push(
                m.attachments@[i as int].url@,
            ));
            assert(attachment_urls(*m).take(i as int + 1) =~= attachment_urls(*m).take(i as int).push(
                m.attachments@[i as int].url@,
            ));
        }
        i = i + 1;
    }
    proof {
        assert(attachment_urls(*m).take(m.attachments@.len() as int) =~= attachment_urls(*m));
    }
    DistributedCachedMessage {
        author_id: m.author_id,
        author_name: m.author_name.clone(),
        content: m.content.clone(),
        image_urls: urls,
    }
}

/// A deletion is logged when it happened in a guild whose configuration logs
/// deletions.
pub fn delete_logging_applies(guild_id: Option<u64>, config: Option<&MessageLoggingConfig>) -> (r: bool)
    ensures
        r == (guild_id is Some && (config matches Some(c) && spec_delete_enabled(*c))),
{
    if guild_id.is_none() {
        return false;
    }
    match config {
        Some(c) => c.delete_enabled(),
        None => false,
    }
}

/// An edit is logged when it happened in a guild whose configuration logs
/// edits.
pub fn edit_logging_applies(guild_id: Option<u64>, config: Option<&MessageLoggingConfig>) -> (r: bool)
    ensures
        r == (guild_id is Some && (config matches Some(c) && spec_edit_enabled(*c))),
{
    if guild_id.is_none() {
        return false;
    }
    match config {
        Some(c) => c.edit_enabled(),
        None => false,
    }
}

/// The details of a deleted message found in the shared cache.
pub fn details_from_cache(cached: DistributedCachedMessage, channel_id: u64, message_id: u64) -> (r: MessageDetails)
    ensures
        r.msg_id == message_id,
        r.chan_id == channel_id,
        r.author_id == cached.author_id,
        r.author_name == cached.author_name,
        r.content == cached.content,
        r.image_urls == cached.image_urls,
{
    MessageDetails {
        msg_id: message_id,
        chan_id: channel_id,
        author_id: cached.author_id,
        author_name: cached.author_name,
        content: cached.content,
        image_urls: cached.image_urls,
    }
}

/// The details of an edit of a message found in the shared cache: its cached
/// text before, the event's text after; and, when the event carries the new
/// text, the cache entry to write back with it.
pub fn edit_from_cache(
    cached: DistributedCachedMessage,
    message_id: u64,
    channel_id: u64,
    new_content: Option<String>,
) -> (r: (EditDetails, Option<DistributedCachedMessage>))
    ensures
        r.0.msg_id == message_id,
        r.0.chan_id == channel_id,
        r.0.author_id == cached.author_id,
        r.0.author_name@ == cached.author_name@,
        r.0.old_content matches Some(o) && o@ == cached.content@,
        r.0.new_content == new_content,
        match new_content {
            Some(n) => r.1 matches Some(u) && u.author_id == cached.author_id && u.author_name@
                == cached.author_name@ && u.content@ == n@ && u.image_urls == cached.image_urls,
            None => r.1 is None,
        },
{
    let updated = match &new_content {
        Some(n) => Some(
            DistributedCachedMessage {
                author_id: cached.author_id,
                author_name: cached.author_name.clone(),
                content: n.clone(),
                image_urls: cached.image_urls,
            },
        ),
        None => None,
    };
    let details = EditDetails {
        msg_id: message_id,
        chan_id: channel_id,
        author_id: cached.author_id,
        author_name: cached.author_name,
        old_content: Some(cached.content),
        new_content,
    };
    (details, updated)
}

/// The strings joined with `,` between them.
pub open spec fn joined_with_commas(parts: Seq<Seq<char>>) -> Seq<char>
    decreases parts.len(),
{
    if parts.len() == 0 {
        Seq::empty()
    } else if parts.len() == 1 {
        parts[0]
    } else {
        joined_with_commas(parts.drop_last()) + ","@ + parts.last()
    }
}

/// Joins the image URLs of a deleted message with commas.
pub fn join_image_urls(urls: &Vec<String>) -> (r: String)
    ensures
        r@ == joined_with_commas(urls@.map_values(|u: String| u@)),
{
    let ghost views = urls@.map_values(|u: String| u@);
    if urls.len() == 0 {
        return String::new();
    }
    let mut r = urls[0].clone();
    let mut i: usize = 1;
    proof {
        assert(views.take(1).len() == 1);
        assert(views.take(1)[0] == views[0]);
    }
    while i < urls.len()
        invariant
            1 <= i <= urls@.len(),
            views == urls@.map_values(|u: String| u@),
            r@ == joined_with_commas(views.take(i as int)),
        decreases urls@.len() - i,
    {
        proof {
            assert(views.take(i as int + 1).drop_last() =~= views.take(i as int));
        }
        r.append(",");
        r.append(urls[i].as_str());
        i = i + 1;
    }
    proof {
        assert(views.take(urls@.len() as int) =~= views);
    }
    r
}

/// What the deleter lookup reads of a message-delete audit log entry.
#[derive(Debug, Clone, Copy, PartialEq, Eq, Structural)]
pub struct DeleteAuditEntry {
    pub target_id: Option<u64>,
    pub channel_id: Option<u64>,
    pub user_id: u64,
}

/// An entry names the deletion when it targets the author in the channel.
pub open spec fn entry_matches(e: DeleteAuditEntry, author_id: u64, channel_id: u64) -> bool {
    e.target_id == Some(author_id) && e.channel_id == Some(channel_id)
}

/// The moderators of the matching entries, in the order of the log.
pub open spec fn spec_candidate_deleters(
    entries: Seq<DeleteAuditEntry>,
    author_id: u64,
    channel_id: u64,
) -> Seq<u64>
    decreases entries.len(),
{
    if entries.len() == 0 {
        Seq::empty()
    } else {
        let rest = spec_candidate_deleters(entries.drop_last(), author_id, channel_id);
        if entry_matches(entries.last(), author_id, channel_id) {
            rest.push(entries.last().user_id)
        } else {
            rest
        }
    }
}

/// The users who may have deleted the message, most recent log entry first as
/// the log lists them; the first whose name can be resolved is the deleter.
pub fn candidate_deleters(entries: &Vec<DeleteAuditEntry>, author_id: u64, channel_id: u64) -> (r: Vec<u64>)
    ensures
        r@ == spec_candidate_deleters(entries@, author_id, channel_id),
{
    let mut r: Vec<u64> = Vec::new();
    let mut i: usize = 0;
    while i < entries.len()
        invariant
            i <= entries@.len(),
            r@ == spec_candidate_deleters(entries@.take(i as int), author_id, channel_id),
        decreases entries@.len() - i,
    {
        proof {
            assert(entries@.take(i as int + 1).drop_last() =~= entries@.take(i as int));
        }
        let e = entries[i];
        let matches_target = match e.target_id {
            Some(t) => t == author_id,
            None => false,
        };
        let matches_channel = match e.channel_id {
            Some(c) => c == channel_id,
            None => false,
        };
        if matches_target && matches_channel {
            r.push(e.user_id);
        }
        i = i + 1;
    }
    proof {
        assert(entries@.take(entries@.len() as int) =~= entries@);
    }
    r
}

/// The name of a user in the users the audit log came with, keyed by user id.
pub open spec fn spec_user_name(users: Map<u64, String>, id: u64) -> Option<Seq<char>> {
    if users.contains_key(id) {
        Some(users[id]@)
    } else {
        None
    }
}

/// Looks a user's name up in the users the audit log came with.
pub fn user_name_in(users: &HashMap<u64, String>, id: u64) -> (r: Option<String>)
    ensures
        match r {
            Some(n) => spec_user_name(users@, id) == Some(n@),
            None => spec_user_name(users@, id) is None,
        },
{
    match users.get(&id) {
        Some(n) => Some(n.clone()),
        None => None,
    }
}

/// The next step of handling a delete or edit event, once it is known whether
/// the guild logs such events and what this instance's cache holds.
#[derive(Debug, Clone, PartialEq, Eq)]
pub enum LogStep<T> {
    /// Nothing is logged.
    Skip,
    /// The message is not in this instance's cache: look it up in the shared
    /// cache.
    FetchShared,
    /// Run the found message through the inclusion and exclusion filters.
    Filter(T),
}

/// The first step: skip when the event is not logged; otherwise filter what
/// this instance's cache gave, or ask the shared cache when it gave nothing.
pub fn first_log_step<T>(applies: bool, local: Option<T>) -> (r: LogStep<T>)
    ensures
        !applies ==> r == LogStep::<T>::Skip,
        applies ==> r == match local {
            Some(d) => LogStep::Filter(d),
            None => LogStep::<T>::FetchShared,
        },
{
    if !applies {
        return LogStep::Skip;
    }
    match local {
        Some(d) => LogStep::Filter(d),
        None => LogStep::FetchShared,
    }
}

/// The step after the shared cache answered: filter what it found, or skip
/// when it had nothing either.
pub fn after_shared_lookup<T>(shared: Option<T>) -> (r: LogStep<T>)
    ensures
        r == match shared {
            Some(d) => LogStep::Filter(d),
            None => LogStep::<T>::Skip,
        },
{
    match shared {
        Some(d) => LogStep::Filter(d),
        None => LogStep::Skip,
    }
}

/// What is recorded and published: the message, unless the filters exclude
/// it.
pub fn log_if_included<T>(excluded: bool, details: T) -> (r: Option<T>)
    ensures
        r == (if excluded {
            None
        } else {
            Some(details)
        }),
{
    if excluded {
        None
    } else {
        Some(details)
    }
}

/// The live feed payload of a deleted message.
pub fn deleted_payload(
    msg: MessageDetails,
    guild_id: u64,
    deleted_at: String,
    attachment_url: String,
    deleted_by: Option<(u64, String)>,
) -> (r: DeletedMessagePayload)
    ensures
        r.id == msg.msg_id,
        r.guild_id == guild_id,
        r.author_id == msg.author_id,
        r.author_name == msg.author_name,
        r.content == msg.content,
        r.channel_id == msg.chan_id,
        r.deleted_at == deleted_at,
        r.attachment_url == attachment_url,
        r.deleted_by_id == match deleted_by {
            Some(d) => Some(d.0),
            None => None::<u64>,
        },
        r.deleted_by_name == match deleted_by {
            Some(d) => Some(d.1),
            None => None::<String>,
        },
{
    let (deleted_by_id, deleted_by_name) = match deleted_by {
        Some((id, name)) => (Some(id), Some(name)),
        None => (None, None),
    };
    DeletedMessagePayload {
        id: msg.msg_id,
        guild_id,
        author_id: msg.author_id,
        author_name: msg.author_name,
        content: msg.content,
        channel_id: msg.chan_id,
        deleted_at,
        attachment_url,
        deleted_by_id,
        deleted_by_name,
    }
}

/// The live feed payload of an edited message.
pub fn modified_payload(details: EditDetails, guild_id: u64, updated_at: String) -> (r: ModifiedMessagePayload)
    ensures
        r.id == details.msg_id,
        r.guild_id == guild_id,
        r.author_id == details.author_id,
        r.author_name == details.author_name,
        r.channel_id == details.chan_id,
        r.old_content == details.old_content,
        r.new_content == details.new_content,
        r.updated_at == updated_at,
{
    ModifiedMessagePayload {
        id: details.msg_id,
        guild_id,
        author_id: details.author_id,
        author_name: details.author_name,
        channel_id: details.chan_id,
        old_content: details.old_content,
        new_content: details.new_content,
        updated_at,
    }
}

} // verus!
