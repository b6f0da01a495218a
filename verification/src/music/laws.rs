//! Properties of the player that span several operations.

use crate::music::state::{
    spec_advance, spec_history_list, spec_install, spec_push_history, spec_stop,
    OldTrackDisposition, PlayerState, QueuedTrack, TrackMeta, HISTORY_LIMIT,
};
use vstd::prelude::*;

verus! {

/// The history never holds more than `HISTORY_LIMIT` tracks, and appending keeps
/// exactly the most recent ones: the result is the tail of the old history
/// followed by the new tracks, and nothing is dropped while the limit is not reached.
pub proof fn law_history_keeps_most_recent(h: Seq<QueuedTrack>, tracks: Seq<QueuedTrack>)
    ensures
        spec_push_history(h, tracks).len() <= HISTORY_LIMIT || spec_push_history(h, tracks) == h
            + tracks,
        spec_push_history(h, tracks).len() == if (h + tracks).len() > HISTORY_LIMIT {
            HISTORY_LIMIT as int
        } else {
            (h + tracks).len() as int
        },
        forall|i: int|
            0 <= i < spec_push_history(h, tracks).len() ==> #[trigger] spec_push_history(
                h,
                tracks,
            )[i] == (h + tracks)[(h + tracks).len() - spec_push_history(h, tracks).len() + i],
        (h + tracks).len() <= HISTORY_LIMIT ==> spec_push_history(h, tracks) == h + tracks,
        tracks.len() > 0 ==> spec_push_history(h, tracks).last() == tracks.last(),
{
}

/// Replaying history position `k` (1 = most recent) replays the `k`-th entry of
/// the history list, which shows the most recent track first.
pub proof fn law_history_list_matches_jump(h: Seq<QueuedTrack>, k: int)
    requires
        0 < k <= h.len(),
    ensures
        spec_history_list(h)[k - 1] == h[h.len() - k],
        spec_history_list(h).len() == h.len(),
{
}

/// Jumping to queue position `p` loses no track: the tracks moved to the history,
/// the started track and the remaining queue make up the old queue, in order.
pub proof fn law_queue_jump_conserves(q: Seq<QueuedTrack>, p: int)
    requires
        0 < p <= q.len(),
    ensures
        q.take(p - 1) + seq![q[p - 1]] + q.skip(p) == q,
{
    assert(q.take(p - 1) + seq![q[p - 1]] + q.skip(p) =~= q);
}

/// Going back to the previous track puts the interrupted track first in line:
/// the most recent history entry plays, and the track it replaced heads the queue.
pub proof fn law_prev_requeues_current(
    s: PlayerState,
    handle: u128,
    meta: TrackMeta,
)
    requires
        s.history.len() > 0,
        s.current_track is Some,
    ensures
        ({
            let taken = PlayerState { history: s.history.drop_last(), ..s };
            let r = spec_install(
                taken,
                handle,
                s.history.last(),
                meta,
                OldTrackDisposition::QueueFront,
            );
            &&& r.current_track == Some(s.history.last())
            &&& r.queue == seq![s.current_track->0] + s.queue
            &&& r.history == s.history.drop_last()
            &&& r.current == Some(handle)
        }),
{
}

/// Skipping (or a natural track end) moves the playing track to the end of the
/// history and starts the head of the queue.
pub proof fn law_advance_then_start(
    s: PlayerState,
    handle: u128,
    meta: TrackMeta,
)
    requires
        s.queue.len() > 0,
        s.current_track is Some,
    ensures
        ({
            let a = spec_advance(s);
            let r = spec_install(a, handle, s.queue[0], meta, OldTrackDisposition::History);
            &&& r.current_track == Some(s.queue[0])
            &&& r.queue == s.queue.drop_first()
            &&& r.history == spec_push_history(s.history, seq![s.current_track->0])
            &&& r.history.last() == s.current_track->0
        }),
{
}

/// Stopping leaves the player idle with an empty queue, and the track that was
/// playing is the most recent history entry.
pub proof fn law_stop_is_idle(s: PlayerState)
    ensures
        spec_stop(s).queue.len() == 0,
        spec_stop(s).current is None,
        spec_stop(s).current_track is None,
        s.current_track is Some ==> spec_stop(s).history.last() == s.current_track->0,
        s.current_track is None ==> spec_stop(s).history == s.history,
{
}

} // verus!
