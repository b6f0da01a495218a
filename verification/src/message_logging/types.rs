//! Message logging configuration and records.

use vstd::prelude::*;

verus! {

/// Toggles for the message logging event types.
#[derive(Debug, Clone, Copy, PartialEq, Eq, Structural)]
pub struct MessageEventsConfig {
    /// Whether message deletions are logged.
    pub message_delete: Option<bool>,
    /// Whether message edits are logged.
    pub message_edit: Option<bool>,
}

impl Default for MessageEventsConfig {
    /// Nothing configured.
    fn default() -> (r: Self)
        ensures
            r.message_delete is None,
            r.message_edit is None,
    {
        MessageEventsConfig { message_delete: None, message_edit: None }
    }
}

/// Channels, roles and users excluded from logging, and which events are
/// logged.
#[derive(Debug, Clone)]
pub struct MessageLoggingConfig {
    pub ignored_channels: Option<Vec<u64>>,
    pub ignored_roles: Option<Vec<u64>>,
    pub ignored_users: Option<Vec<u64>>,
    pub events: Option<MessageEventsConfig>,
}

impl Default for MessageLoggingConfig {
    /// Nothing excluded and no event configured.
    fn default() -> (r: Self)
        ensures
            r.ignored_channels is None,
            r.ignored_roles is None,
            r.ignored_users is None,
            r.events is None,
    {
        MessageLoggingConfig { ignored_channels: None, ignored_roles: None, ignored_users: None, events: None }
    }
}

/// Whether deletions are logged: only when switched on explicitly.
pub open spec fn spec_delete_enabled(c: MessageLoggingConfig) -> bool {
    c.events matches Some(e) && e.message_delete == Some(true)
}

/// Whether edits are logged: only when switched on explicitly.
pub open spec fn spec_edit_enabled(c: MessageLoggingConfig) -> bool {
    c.events matches Some(e) && e.message_edit == Some(true)
}

impl MessageLoggingConfig {
    /// Whether message deletions are logged.
    pub fn delete_enabled(&self) -> (r: bool)
        ensures
            r == spec_delete_enabled(*self),
    {
        match self.events {
            Some(e) => match e.message_delete {
                Some(b) => b,
                None => false,
            },
            None => false,
        }
    }

    /// Whether message edits are logged.
    pub fn edit_enabled(&self) -> (r: bool)
        ensures
            r == spec_edit_enabled(*self),
    {
        match self.events {
            Some(e) => match e.message_edit {
                Some(b) => b,
                None => false,
            },
            None => false,
        }
    }
}

/// A deleted message as recorded.
#[derive(Debug, Clone)]
pub struct MessageDetails {
    pub msg_id: u64,
    pub chan_id: u64,
    pub author_id: u64,
    pub author_name: String,
    pub content: String,
    pub image_urls: Vec<String>,
}

/// An edit as recorded.
#[derive(Debug, Clone)]
pub struct EditDetails {
    pub msg_id: u64,
    pub chan_id: u64,
    pub author_id: u64,
    pub author_name: String,
    pub old_content: Option<String>,
    pub new_content: Option<String>,
}

/// A message as kept in the shared cache, so that any bot instance can log its
/// deletion or edit.
#[derive(Debug, Clone)]
pub struct DistributedCachedMessage {
    pub author_id: u64,
    pub author_name: String,
    pub content: String,
    pub image_urls: Vec<String>,
}

/// Payload sent to the dashboard when a message is deleted.
#[derive(Debug, Clone)]
pub struct DeletedMessagePayload {
    pub id: u64,
    pub guild_id: u64,
    pub author_id: u64,
    pub author_name: String,
    pub content: String,
    pub channel_id: u64,
    pub deleted_at: String,
    pub attachment_url: String,
    pub deleted_by_id: Option<u64>,
    pub deleted_by_name: Option<String>,
}

/// Payload sent to the dashboard when a message is edited.
#[derive(Debug, Clone)]
pub struct ModifiedMessagePayload {
    pub id: u64,
    pub guild_id: u64,
    pub author_id: u64,
    pub author_name: String,
    pub channel_id: u64,
    pub old_content: Option<String>,
    pub new_content: Option<String>,
    pub updated_at: String,
}

} // verus!
