//! Playback statistics events.

use crate::music::state::{copy_opt_string, TrackMeta};
use vstd::prelude::*;

verus! {

/// Most events buffered before a flush to the database is forced.
pub const FLUSH_BATCH: usize = 64;

/// One side of a playback lifecycle; a start and its end share `handle_uuid`.
#[derive(Clone, Debug, PartialEq, Eq)]
pub enum StatsEvent {
    Start {
        guild_id: i64,
        user_id: i64,
        handle_uuid: String,
        track_url: Option<String>,
        title: String,
        artist: String,
        duration_ms: Option<i64>,
    },
    End { handle_uuid: String, listened_ms: i64 },
}

/// The "track started" event of a track: ids reinterpreted as signed 64-bit
/// database ids, and `Unknown` for a missing title or artist.
pub fn track_start_event(
    guild_id: u64,
    requested_by_id: u64,
    handle_uuid: String,
    meta: &TrackMeta,
) -> (r: StatsEvent)
    ensures
        r matches StatsEvent::Start { guild_id: g, user_id: u, handle_uuid: h, track_url, title, artist, duration_ms }
            && g == guild_id as i64 && u == requested_by_id as i64 && h == handle_uuid
            && track_url == meta.source_url
            && title@ == (match meta.title { Some(t) => t@, None => "Unknown"@ })
            && artist@ == (match meta.artist { Some(a) => a@, None => "Unknown"@ })
            && duration_ms == (match meta.duration_ms { Some(d) => Some(d as i64), None => None::<i64> }),
{
    let title = match &meta.title {
        Some(t) => t.clone(),
        None => String::from_str("Unknown"),
    };
    let artist = match &meta.artist {
        Some(a) => a.clone(),
        None => String::from_str("Unknown"),
    };
    let duration_ms: Option<i64> = match meta.duration_ms {
        Some(d) => Some(d as i64),
        None => None,
    };
    StatsEvent::Start {
        guild_id: guild_id as i64,
        user_id: requested_by_id as i64,
        handle_uuid,
        track_url: copy_opt_string(&meta.source_url),
        title,
        artist,
        duration_ms,
    }
}

/// The "track ended" event that backfills the listened time.
pub fn track_end_event(handle_uuid: String, listened_ms: i64) -> (r: StatsEvent)
    ensures
        r == (StatsEvent::End { handle_uuid, listened_ms }),
{
    StatsEvent::End { handle_uuid, listened_ms }
}

/// A full buffer is flushed without waiting for the timer.
pub fn should_flush(buffered: usize) -> (r: bool)
    ensures
        r == (buffered >= FLUSH_BATCH),
{
    buffered >= FLUSH_BATCH
}

/// Seconds between two flushes of the buffered events.
pub const FLUSH_INTERVAL_SECS: u64 = 1;

/// Events waiting to be written to the database, in arrival order.
pub struct StatsBuffer {
    events: Vec<StatsEvent>,
}

impl View for StatsBuffer {
    type V = Seq<StatsEvent>;

    closed spec fn view(&self) -> Seq<StatsEvent> {
        self.events@
    }
}

impl StatsBuffer {
    /// An empty buffer.
    pub fn new() -> (r: StatsBuffer)
        ensures
            r@ == Seq::<StatsEvent>::empty(),
    {
        StatsBuffer { events: Vec::new() }
    }

    /// Number of buffered events.
    pub fn len(&self) -> (r: usize)
        ensures
            r == self@.len(),
    {
        self.events.len()
    }

    /// Buffers an event; returns whether the buffer is now full enough to be
    /// flushed at once.
    pub fn push(&mut self, event: StatsEvent) -> (flush_now: bool)
        ensures
            final(self)@ == old(self)@.push(event),
            flush_now == (final(self)@.len() >= FLUSH_BATCH),
    {
        self.events.push(event);
        should_flush(self.events.len())
    }

    /// Takes every buffered event out for a flush, leaving the buffer empty.
    pub fn take_batch(&mut self) -> (batch: Vec<StatsEvent>)
        ensures
            batch@ == old(self)@,
            final(self)@ == Seq::<StatsEvent>::empty(),
    {
        let mut batch: Vec<StatsEvent> = Vec::new();
        std::mem::swap(&mut batch, &mut self.events);
        batch
    }

    /// Puts back a batch whose write failed, so the next flush retries it.
    pub fn requeue(&mut self, batch: Vec<StatsEvent>)
        ensures
            final(self)@ == batch@,
    {
        self.events = batch;
    }
}

} // verus!
