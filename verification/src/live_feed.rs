//! The dashboard's live feed: which pub/sub channels carry which events, how
//! they are named on the event stream, and which subscriber receives them.

use crate::message_logging::types::{DeletedMessagePayload, ModifiedMessagePayload};
use crate::text::eq_str;
use vstd::prelude::*;

verus! {

/// The kinds of event the live feed carries.
#[derive(Debug, Clone, Copy, PartialEq, Eq, Structural)]
pub enum LogEventKind {
    MessageDelete,
    MessageEdit,
    MessageReport,
}

/// An event streamed to the dashboard. Only the guild of a reported message is
/// read here; the rest of a report is passed through as received.
#[derive(Debug, Clone)]
pub enum LogEvent {
    MessageDelete(DeletedMessagePayload),
    MessageEdit(ModifiedMessagePayload),
    MessageReport { guild_id: u64 },
}

impl LogEvent {
    /// The guild the event belongs to.
    pub fn guild_id(&self) -> (r: Option<u64>)
        ensures
            r == Some(
                match self {
                    LogEvent::MessageDelete(p) => p.guild_id,
                    LogEvent::MessageEdit(p) => p.guild_id,
                    LogEvent::MessageReport { guild_id } => *guild_id,
                },
            ),
    {
        match self {
            LogEvent::MessageDelete(p) => Some(p.guild_id),
            LogEvent::MessageEdit(p) => Some(p.guild_id),
            LogEvent::MessageReport { guild_id } => Some(*guild_id),
        }
    }

    /// The kind of the event.
    pub fn kind(&self) -> (r: LogEventKind)
        ensures
            r == match self {
                LogEvent::MessageDelete(_) => LogEventKind::MessageDelete,
                LogEvent::MessageEdit(_) => LogEventKind::MessageEdit,
                LogEvent::MessageReport { .. } => LogEventKind::MessageReport,
            },
    {
        match self {
            LogEvent::MessageDelete(_) => LogEventKind::MessageDelete,
            LogEvent::MessageEdit(_) => LogEventKind::MessageEdit,
            LogEvent::MessageReport { .. } => LogEventKind::MessageReport,
        }
    }
}

/// The pub/sub channels the live feed subscribes to.
pub fn redis_channels() -> (r: Vec<&'static str>)
    ensures
        r@.len() == 3,
        r@[0]@ == "discord:deletes"@,
        r@[1]@ == "discord:updates"@,
        r@[2]@ == "discord:reports"@,
{
    let mut r: Vec<&'static str> = Vec::new();
    r.push("discord:deletes");
    r.push("discord:updates");
    r.push("discord:reports");
    r
}

/// The kind of event a pub/sub channel carries, if the feed listens to it.
pub open spec fn spec_kind_for_channel(channel: Seq<char>) -> Option<LogEventKind> {
    if channel == "discord:deletes"@ {
        Some(LogEventKind::MessageDelete)
    } else if channel == "discord:updates"@ {
        Some(LogEventKind::MessageEdit)
    } else if channel == "discord:reports"@ {
        Some(LogEventKind::MessageReport)
    } else {
        None
    }
}

/// Which kind of event a message on `channel` is.
pub fn kind_for_channel(channel: &str) -> (r: Option<LogEventKind>)
    ensures
        r == spec_kind_for_channel(channel@),
{
    if eq_str(channel, "discord:deletes") {
        Some(LogEventKind::MessageDelete)
    } else if eq_str(channel, "discord:updates") {
        Some(LogEventKind::MessageEdit)
    } else if eq_str(channel, "discord:reports") {
        Some(LogEventKind::MessageReport)
    } else {
        None
    }
}

/// The event name of a kind on the dashboard's event stream.
pub fn sse_event_name(kind: LogEventKind) -> (r: &'static str)
    ensures
        kind == LogEventKind::MessageDelete ==> r@ == "message-delete"@,
        kind == LogEventKind::MessageEdit ==> r@ == "message-edit"@,
        kind == LogEventKind::MessageReport ==> r@ == "message-report"@,
{
    match kind {
        LogEventKind::MessageDelete => "message-delete",
        LogEventKind::MessageEdit => "message-edit",
        LogEventKind::MessageReport => "message-report",
    }
}

/// A subscriber receives exactly the events of the guild it subscribed to.
pub fn routes_to_subscriber(event_guild: Option<u64>, subscriber_guild: u64) -> (r: bool)
    ensures
        r == (event_guild == Some(subscriber_guild)),
{
    match event_guild {
        Some(g) => g == subscriber_guild,
        None => false,
    }
}

/// The query of a live-feed subscription: the guild and the signed ticket
/// (user, expiry in unix seconds, signature).
#[derive(Debug, Clone)]
pub struct SseQuery {
    pub guild_id: u64,
    pub user_id: Option<String>,
    pub expires: Option<u64>,
    pub sig: Option<String>,
}

impl SseQuery {
    /// The ticket's user, expiry and signature, when all three are present; a
    /// subscription without them is refused as unauthorised.
    pub fn ticket_parts(&self) -> (r: Option<(&str, u64, &str)>)
        ensures
            match r {
                Some((u, e, s)) => self.user_id matches Some(qu) && qu@ == u@ && self.expires == Some(e)
                    && (self.sig matches Some(qs) && qs@ == s@),
                None => self.user_id is None || self.expires is None || self.sig is None,
            },
    {
        match (&self.user_id, self.expires, &self.sig) {
            (Some(u), Some(e), Some(s)) => Some((u.as_str(), e, s.as_str())),
            _ => None,
        }
    }
}

} // verus!
