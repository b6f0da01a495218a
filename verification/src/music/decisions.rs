//! Decisions of a guild's music actor that sit between its calls to the audio
//! engine: what a track end means, how a dropped stream is recovered, and how a
//! resolved playlist is split.

use crate::music::state::{is_premature_drop, may_reconnect_live, spec_is_premature_drop, MusicError};
use vstd::prelude::*;

verus! {

/// The first step after the audio engine reports a track end.
#[derive(Debug, Clone, Copy, PartialEq, Eq, Structural)]
pub enum TrackEndStep {
    /// The event is about a track that is no longer current.
    Ignore,
    /// A live stream's source dropped: reconnect to it.
    ReconnectLive,
    /// Decide between recovering a dropped stream and moving on.
    CheckDrop,
}

/// Classifies a track end: stale events are ignored; a live stream that has not
/// just been reconnected is reconnected; anything else (including a live stream
/// that dropped again within five seconds) goes on to the drop check.
pub fn track_end_step(is_current: bool, is_live: bool, since_last_reconnect_ms: Option<u64>) -> (r: TrackEndStep)
    ensures
        !is_current ==> r == TrackEndStep::Ignore,
        is_current && is_live && !(since_last_reconnect_ms is Some && since_last_reconnect_ms->0 < 5000)
            ==> r == TrackEndStep::ReconnectLive,
        is_current && (!is_live || (since_last_reconnect_ms is Some && since_last_reconnect_ms->0 < 5000))
            ==> r == TrackEndStep::CheckDrop,
{
    if !is_current {
        return TrackEndStep::Ignore;
    }
    if is_live && may_reconnect_live(since_last_reconnect_ms) {
        return TrackEndStep::ReconnectLive;
    }
    TrackEndStep::CheckDrop
}

/// What to do with a track that ended on its own (or whose live reconnect
/// failed).
#[derive(Debug, Clone, Copy, PartialEq, Eq, Structural)]
pub enum DropRecovery {
    /// The stream dropped early: start the track again at `at_ms`, counting one
    /// more retry.
    Resume { at_ms: u128, retry_count: usize },
    /// The track is over: record it and play the next one; retries reset.
    Advance,
}

/// Decides whether a track end was a dropped stream to resume (where it was
/// estimated to have stopped) or a natural end. A drop can only be resumed
/// while a track is installed.
pub fn drop_recovery(estimated_end_ms: u128, total_ms: Option<u64>, retry_count: usize, has_track: bool) -> (r: DropRecovery)
    ensures
        (spec_is_premature_drop(estimated_end_ms as int, total_ms, retry_count) && has_track) ==> r
            == (DropRecovery::Resume { at_ms: estimated_end_ms, retry_count: (retry_count + 1) as usize }),
        !(spec_is_premature_drop(estimated_end_ms as int, total_ms, retry_count) && has_track) ==> r
            == DropRecovery::Advance,
{
    if is_premature_drop(estimated_end_ms, total_ms, retry_count) && has_track {
        DropRecovery::Resume { at_ms: estimated_end_ms, retry_count: retry_count + 1 }
    } else {
        DropRecovery::Advance
    }
}

/// Where to seek a dropped track once it was started again: its estimated
/// stopping point, when the restart succeeded, a handle to the new playback is
/// there, and the point lies past the start; otherwise no seek.
pub fn resume_seek_target(restarted: bool, has_handle: bool, at_ms: u128) -> (r: Option<u128>)
    ensures
        r == (if restarted && has_handle && at_ms > 0 {
            Some(at_ms)
        } else {
            None
        }),
{
    if restarted && has_handle && at_ms > 0 {
        Some(at_ms)
    } else {
        None
    }
}

/// A stream is resumed at most three times in a row before the track is let go.
pub proof fn law_drop_retries_are_bounded(estimated_end_ms: u128, total_ms: Option<u64>, retry_count: usize)
    requires
        retry_count >= 3,
    ensures
        !spec_is_premature_drop(estimated_end_ms as int, total_ms, retry_count),
{
}

/// Splits a resolved playlist into the track to start and the tracks to queue,
/// with the playlist's size; an empty playlist is refused.
pub fn split_playlist(terms: Vec<String>) -> (r: Result<(String, Vec<String>, usize), MusicError>)
    ensures
        terms@.len() == 0 ==> r == Err::<(String, Vec<String>, usize), MusicError>(MusicError::EmptyPlaylist),
        terms@.len() > 0 ==> (r matches Ok((first, rest, count)) && first == terms@[0] && rest@
            == terms@.drop_first() && count == terms@.len()),
{
    let count = terms.len();
    if count == 0 {
        return Err(MusicError::EmptyPlaylist);
    }
    let mut rest = terms;
    let first = rest.remove(0);
    Ok((first, rest, count))
}

/// Whether a track added while something plays is queued (otherwise it starts
/// at once).
pub fn queues_behind_current(current: Option<u128>) -> (r: bool)
    ensures
        r == current is Some,
{
    current.is_some()
}

/// Where playback goes: `Ok(None)` reuses the guild's existing voice
/// connection, `Ok(Some(channel))` joins that channel first; without a
/// connection or a channel there is nowhere to play.
pub fn voice_target(connected: bool, vc_channel_id: Option<u64>) -> (r: Result<Option<u64>, MusicError>)
    ensures
        connected ==> r == Ok::<Option<u64>, MusicError>(None),
        !connected && vc_channel_id is Some ==> r == Ok::<Option<u64>, MusicError>(vc_channel_id),
        !connected && vc_channel_id is None ==> r == Err::<Option<u64>, MusicError>(MusicError::NoVoiceChannel),
{
    if connected {
        return Ok(None);
    }
    match vc_channel_id {
        Some(c) => Ok(Some(c)),
        None => Err(MusicError::NoVoiceChannel),
    }
}

} // verus!
