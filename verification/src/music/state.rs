//! The per-guild player: the current track, the upcoming queue and the play
//! history, with every transition that the guild's music actor applies to them.

use crate::music::timestamp::{parse_seek_input, seek_input_fits, spec_parse_seek, SeekMode};
use crate::text::{starts_with_seq, strip_prefix_str, to_owned_str};
use rand::seq::SliceRandom;
use std::collections::VecDeque;
use vstd::prelude::*;

verus! {

/// Most tracks kept in the play history; older entries are dropped first.
pub const HISTORY_LIMIT: usize = 50;

/// Metadata of a track as reported by the media resolver.
#[derive(Clone, Debug, PartialEq, Eq)]
pub struct TrackMeta {
    pub title: Option<String>,
    pub artist: Option<String>,
    /// Length in milliseconds; absent (or zero) for live streams.
    pub duration_ms: Option<u64>,
    pub thumbnail: Option<String>,
    pub source_url: Option<String>,
}

/// An exact copy of an optional string.
pub fn copy_opt_string(s: &Option<String>) -> (r: Option<String>)
    ensures
        r == *s,
{
    match s {
        Some(v) => Some(v.clone()),
        None => None,
    }
}

impl TrackMeta {
    /// Metadata with nothing known.
    pub fn empty() -> (r: TrackMeta)
        ensures
            r.title is None && r.artist is None && r.duration_ms is None && r.thumbnail is None
                && r.source_url is None,
    {
        TrackMeta { title: None, artist: None, duration_ms: None, thumbnail: None, source_url: None }
    }

    /// An exact copy.
    pub fn duplicate(&self) -> (r: TrackMeta)
        ensures
            r == *self,
    {
        TrackMeta {
            title: copy_opt_string(&self.title),
            artist: copy_opt_string(&self.artist),
            duration_ms: self.duration_ms,
            thumbnail: copy_opt_string(&self.thumbnail),
            source_url: copy_opt_string(&self.source_url),
        }
    }
}

/// A live or infinite stream has no finite duration.
pub open spec fn spec_is_live_stream(meta: TrackMeta) -> bool {
    meta.duration_ms is None || meta.duration_ms == Some(0u64)
}

/// Returns `true` when a track is a live/infinite stream (no finite duration).
pub fn is_live_stream(meta: &TrackMeta) -> (r: bool)
    ensures
        r == spec_is_live_stream(*meta),
{
    match meta.duration_ms {
        None => true,
        Some(d) => d == 0,
    }
}

/// A track waiting in the queue, playing, or remembered in the history.
#[derive(Clone, Debug, PartialEq, Eq)]
pub struct QueuedTrack {
    pub query: String,
    pub metadata: TrackMeta,
    pub requested_by: String,
    pub requested_by_id: u64,
}

impl QueuedTrack {
    /// An exact copy.
    pub fn duplicate(&self) -> (r: QueuedTrack)
        ensures
            r == *self,
    {
        QueuedTrack {
            query: self.query.clone(),
            metadata: self.metadata.duplicate(),
            requested_by: self.requested_by.clone(),
            requested_by_id: self.requested_by_id,
        }
    }
}

/// Exact copies of a list of tracks.
pub fn duplicate_tracks(v: &VecDeque<QueuedTrack>) -> (r: Vec<QueuedTrack>)
    ensures
        r@ == v@,
{
    let mut r: Vec<QueuedTrack> = Vec::new();
    let mut i: usize = 0;
    while i < v.len()
        invariant
            i <= v@.len(),
            r@ == v@.take(i as int),
        decreases v@.len() - i,
    {
        r.push(v[i].duplicate());
        proof {
            assert(v@.take(i as int + 1) =~= v@.take(i as int).push(v@[i as int]));
        }
        i = i + 1;
    }
    proof {
        assert(v@.take(v@.len() as int) =~= v@);
    }
    r
}

/// The tracks of a deque, front first, in a vector.
fn deque_into_vec(d: VecDeque<QueuedTrack>) -> (r: Vec<QueuedTrack>)
    ensures
        r@ == d@,
{
    let mut d = d;
    let ghost all = d@;
    let mut r: Vec<QueuedTrack> = Vec::new();
    while d.len() > 0
        invariant
            r@ + d@ == all,
        decreases d@.len(),
    {
        match d.pop_front() {
            Some(t) => {
                r.push(t);
                proof {
                    assert(r@ + d@ =~= all);
                }
            },
            None => {},
        }
    }
    proof {
        assert(r@ =~= r@ + d@);
    }
    r
}

/// Title and thumbnail of a track that started (or was queued).
#[derive(Clone, Debug, PartialEq, Eq)]
pub struct StartedTrackInfo {
    pub title: String,
    pub thumbnail: Option<String>,
}

/// The title shown for a track: its metadata title, or `untitled`.
pub open spec fn display_title(meta: TrackMeta) -> Seq<char> {
    match meta.title {
        Some(t) => t@,
        None => "untitled"@,
    }
}

/// The display information of a track's metadata.
pub fn started_info(meta: &TrackMeta) -> (r: StartedTrackInfo)
    ensures
        r.title@ == display_title(*meta),
        r.thumbnail == meta.thumbnail,
{
    let title = match &meta.title {
        Some(t) => t.clone(),
        None => String::from_str("untitled"),
    };
    StartedTrackInfo { title, thumbnail: copy_opt_string(&meta.thumbnail) }
}

/// The outcome of an enqueue request.
#[derive(Clone, Debug, PartialEq, Eq)]
pub enum QueueAddOutcome {
    /// The player was idle, so the track started playing immediately.
    Played(StartedTrackInfo),
    /// Something was playing, so the track was appended to the queue.
    Queued(StartedTrackInfo),
    /// A playlist was resolved and enqueued.
    PlaylistQueued {
        /// Total number of tracks found in the playlist.
        count: usize,
        /// The playlist's first track.
        first_track: StartedTrackInfo,
    },
}

/// The outcome of a play request.
#[derive(Clone, Debug, PartialEq, Eq)]
pub enum PlayOutcome {
    Single(StartedTrackInfo),
    Playlist { first_track: StartedTrackInfo, count: usize },
}

/// What happens to the previously active track when a new one starts.
#[derive(Clone, Copy, Debug, PartialEq, Eq)]
pub enum OldTrackDisposition {
    /// Push the finished track onto the play history.
    History,
    /// Put the track back at the front of the queue.
    QueueFront,
}

/// The current track and the upcoming queue.
#[derive(Clone, Debug, PartialEq, Eq)]
pub struct QueueSnapshot {
    pub current_meta: Option<TrackMeta>,
    pub queue: Vec<QueuedTrack>,
}

/// A refused player request; `message` gives the text shown to the user.
#[derive(Clone, Copy, Debug, PartialEq, Eq)]
pub enum MusicError {
    PositionZero,
    QueuePositionOutOfBounds,
    HistoryPositionOutOfBounds,
    NothingPlaying,
    NoPreviousTrack,
    EmptyPlaylist,
    SeekInFlight,
    SeekLiveStream,
    SeekTooQuick,
    InvalidSeekInput,
    NoVoiceChannel,
}

impl MusicError {
    /// The text shown to the user.
    pub open spec fn spec_message(self) -> Seq<char> {
        match self {
            MusicError::PositionZero => "Position must be 1 or greater."@,
            MusicError::QueuePositionOutOfBounds => "Position out of bounds. No such track in the queue."@,
            MusicError::HistoryPositionOutOfBounds => "Position out of bounds. No such track in the history."@,
            MusicError::NothingPlaying => "Nothing is currently playing."@,
            MusicError::NoPreviousTrack => "No previous track in history."@,
            MusicError::EmptyPlaylist => "Playlist appears to be empty!"@,
            MusicError::SeekInFlight => "A seek is already in progress, please wait."@,
            MusicError::SeekLiveStream => "Cannot seek in a live stream."@,
            MusicError::SeekTooQuick => "Seeking too quickly! Please wait a moment between seeks."@,
            MusicError::InvalidSeekInput => "Invalid input! Use timestamps like `1:30` or offsets like `+30`, `-15`, `+1:30`."@,
            MusicError::NoVoiceChannel => "Not connected to a voice channel and no channel provided"@,
        }
    }

    /// The text shown to the user.
    pub fn message(&self) -> (r: String)
        ensures
            r@ == self.spec_message(),
    {
        match self {
            MusicError::PositionZero => String::from_str("Position must be 1 or greater."),
            MusicError::QueuePositionOutOfBounds => String::from_str(
                "Position out of bounds. No such track in the queue.",
            ),
            MusicError::HistoryPositionOutOfBounds => String::from_str(
                "Position out of bounds. No such track in the history.",
            ),
            MusicError::NothingPlaying => String::from_str("Nothing is currently playing."),
            MusicError::NoPreviousTrack => String::from_str("No previous track in history."),
            MusicError::EmptyPlaylist => String::from_str("Playlist appears to be empty!"),
            MusicError::SeekInFlight => String::from_str("A seek is already in progress, please wait."),
            MusicError::SeekLiveStream => String::from_str("Cannot seek in a live stream."),
            MusicError::SeekTooQuick => String::from_str(
                "Seeking too quickly! Please wait a moment between seeks.",
            ),
            MusicError::InvalidSeekInput => String::from_str(
                "Invalid input! Use timestamps like `1:30` or offsets like `+30`, `-15`, `+1:30`.",
            ),
            MusicError::NoVoiceChannel => String::from_str(
                "Not connected to a voice channel and no channel provided",
            ),
        }
    }
}

// ---------------------------------------------------------------------------
// The abstract player
// ---------------------------------------------------------------------------

/// The abstract state of a guild player: the playing track (by the handle id of
/// its audio stream), its queue entry and metadata, the queue and the history
/// (oldest first).
pub struct PlayerState {
    pub current: Option<u128>,
    pub current_track: Option<QueuedTrack>,
    pub current_meta: Option<TrackMeta>,
    pub queue: Seq<QueuedTrack>,
    pub history: Seq<QueuedTrack>,
}

/// The last `HISTORY_LIMIT` entries of `h` (all of them when there are fewer).
pub open spec fn bounded_history(h: Seq<QueuedTrack>) -> Seq<QueuedTrack> {
    if h.len() > HISTORY_LIMIT {
        h.skip(h.len() - HISTORY_LIMIT)
    } else {
        h
    }
}

/// The history after appending `tracks` to `h`.
pub open spec fn spec_push_history(h: Seq<QueuedTrack>, tracks: Seq<QueuedTrack>) -> Seq<
    QueuedTrack,
> {
    bounded_history(h + tracks)
}

/// Installs a newly started track, moving the old queue entry to the history or
/// back to the front of the queue.
pub open spec fn spec_install(
    s: PlayerState,
    handle: u128,
    track: QueuedTrack,
    meta: TrackMeta,
    disposition: OldTrackDisposition,
) -> PlayerState {
    let (queue, history) = match s.current_track {
        Some(old) => match disposition {
            OldTrackDisposition::History => (s.queue, spec_push_history(s.history, seq![old])),
            OldTrackDisposition::QueueFront => (seq![old] + s.queue, s.history),
        },
        None => (s.queue, s.history),
    };
    PlayerState {
        current: Some(handle),
        current_track: Some(track),
        current_meta: Some(meta),
        queue,
        history,
    }
}

/// Finishes the current track (into the history) and takes the next one off the
/// front of the queue.
pub open spec fn spec_advance(s: PlayerState) -> PlayerState {
    let history = match s.current_track {
        Some(t) => spec_push_history(s.history, seq![t]),
        None => s.history,
    };
    PlayerState {
        current: None,
        current_track: None,
        current_meta: None,
        queue: if s.queue.len() > 0 {
            s.queue.drop_first()
        } else {
            s.queue
        },
        history,
    }
}

/// Stops playback: the queue is emptied and the current track goes to the history.
pub open spec fn spec_stop(s: PlayerState) -> PlayerState {
    let history = match s.current_track {
        Some(t) => spec_push_history(s.history, seq![t]),
        None => s.history,
    };
    PlayerState {
        current: None,
        current_track: None,
        current_meta: None,
        queue: Seq::empty(),
        history,
    }
}

/// The history, most recent first.
pub open spec fn spec_history_list(h: Seq<QueuedTrack>) -> Seq<QueuedTrack> {
    h.reverse()
}

/// The per-guild player state.
#[derive(Debug)]
pub struct GuildPlayer {
    /// Handle id of the playing audio stream.
    pub current: Option<u128>,
    pub current_track: Option<QueuedTrack>,
    pub current_meta: Option<TrackMeta>,
    pub queue: VecDeque<QueuedTrack>,
    /// Play history, oldest first.
    pub history: Vec<QueuedTrack>,
    pub current_started_at_ms: Option<u64>,
    pub current_paused_at_ms: Option<u64>,
    pub current_paused_total_ms: u64,
}

impl View for GuildPlayer {
    type V = PlayerState;

    open spec fn view(&self) -> PlayerState {
        PlayerState {
            current: self.current,
            current_track: self.current_track,
            current_meta: self.current_meta,
            queue: self.queue@,
            history: self.history@,
        }
    }
}

/// The display title of a playlist search term: the term without its
/// `ytsearch:` prefix.
pub open spec fn placeholder_title(term: Seq<char>) -> Seq<char> {
    if starts_with_seq(term, "ytsearch:"@) {
        term.skip("ytsearch:"@.len() as int)
    } else {
        term
    }
}

/// Appends `tracks` to a history, keeping only the most recent `HISTORY_LIMIT` entries.
pub fn push_history_to(history: &mut Vec<QueuedTrack>, tracks: Vec<QueuedTrack>)
    ensures
        final(history)@ == spec_push_history(old(history)@, tracks@),
{
    let mut tracks = tracks;
    history.append(&mut tracks);
    if history.len() > HISTORY_LIMIT {
        let overflow = history.len() - HISTORY_LIMIT;
        let kept = history.split_off(overflow);
        *history = kept;
    }
}

impl GuildPlayer {
    /// An idle player with an empty queue and history.
    pub fn new() -> (r: GuildPlayer)
        ensures
            r@.current is None,
            r@.current_track is None,
            r@.current_meta is None,
            r@.queue.len() == 0,
            r@.history.len() == 0,
            r.current_started_at_ms is None,
            r.current_paused_at_ms is None,
            r.current_paused_total_ms == 0,
    {
        GuildPlayer {
            current: None,
            current_track: None,
            current_meta: None,
            queue: VecDeque::new(),
            history: Vec::new(),
            current_started_at_ms: None,
            current_paused_at_ms: None,
            current_paused_total_ms: 0,
        }
    }

    /// Appends a single track to the play history.
    pub fn push_history(&mut self, track: QueuedTrack)
        ensures
            final(self)@ == (PlayerState {
                history: spec_push_history(old(self)@.history, seq![track]),
                ..old(self)@
            }),
            final(self).current_started_at_ms == old(self).current_started_at_ms,
            final(self).current_paused_at_ms == old(self).current_paused_at_ms,
            final(self).current_paused_total_ms == old(self).current_paused_total_ms,
    {
        let mut v: Vec<QueuedTrack> = Vec::new();
        v.push(track);
        proof {
            assert(v@ =~= seq![track]);
        }
        push_history_to(&mut self.history, v);
    }

    /// Appends several tracks to the play history, in order.
    pub fn push_history_batch(&mut self, tracks: Vec<QueuedTrack>)
        ensures
            final(self)@ == (PlayerState {
                history: spec_push_history(old(self)@.history, tracks@),
                ..old(self)@
            }),
            final(self).current_started_at_ms == old(self).current_started_at_ms,
            final(self).current_paused_at_ms == old(self).current_paused_at_ms,
            final(self).current_paused_total_ms == old(self).current_paused_total_ms,
    {
        push_history_to(&mut self.history, tracks);
    }

    /// Installs a newly started track, archiving or re-queueing the old one, and
    /// returns the previous stream handle (if any).
    pub fn install_new_track(
        &mut self,
        handle: u128,
        track: QueuedTrack,
        meta: TrackMeta,
        disposition: OldTrackDisposition,
    ) -> (old_handle: Option<u128>)
        ensures
            old_handle == old(self)@.current,
            final(self)@ == spec_install(old(self)@, handle, track, meta, disposition),
            final(self).current_started_at_ms == old(self).current_started_at_ms,
            final(self).current_paused_at_ms == old(self).current_paused_at_ms,
            final(self).current_paused_total_ms == old(self).current_paused_total_ms,
    {
        if let Some(old_track) = self.current_track.take() {
            match disposition {
                OldTrackDisposition::History => self.push_history(old_track),
                OldTrackDisposition::QueueFront => {
                    self.queue.push_front(old_track);
                    proof {
                        assert(self.queue@ =~= seq![old_track] + old(self)@.queue);
                    }
                },
            }
        }
        let old_handle = self.current.take();
        self.current = Some(handle);
        self.current_track = Some(track);
        self.current_meta = Some(meta);
        old_handle
    }

    /// Empties the queue, returning how many tracks it held.
    pub fn queue_clear(&mut self) -> (count: usize)
        ensures
            count == old(self)@.queue.len(),
            final(self)@ == (PlayerState { queue: Seq::empty(), ..old(self)@ }),
            final(self).current_started_at_ms == old(self).current_started_at_ms,
            final(self).current_paused_at_ms == old(self).current_paused_at_ms,
            final(self).current_paused_total_ms == old(self).current_paused_total_ms,
    {
        let len = self.queue.len();
        self.queue.clear();
        len
    }

    /// Removes the track at a 1-based queue position and returns it.
    pub fn queue_remove(&mut self, position: usize) -> (r: Result<QueuedTrack, MusicError>)
        ensures
            position == 0 ==> r == Err::<QueuedTrack, MusicError>(MusicError::PositionZero),
            position > old(self)@.queue.len() && position > 0 ==> r == Err::<
                QueuedTrack,
                MusicError,
            >(MusicError::QueuePositionOutOfBounds),
            r is Err ==> final(self)@ == old(self)@,
            0 < position <= old(self)@.queue.len() ==> r == Ok::<QueuedTrack, MusicError>(
                old(self)@.queue[position - 1],
            ) && final(self)@ == (PlayerState {
                queue: old(self)@.queue.remove(position - 1),
                ..old(self)@
            }),
            final(self).current_started_at_ms == old(self).current_started_at_ms,
            final(self).current_paused_at_ms == old(self).current_paused_at_ms,
            final(self).current_paused_total_ms == old(self).current_paused_total_ms,
    {
        if position == 0 {
            return Err(MusicError::PositionZero);
        }
        if position - 1 >= self.queue.len() {
            return Err(MusicError::QueuePositionOutOfBounds);
        }
        match self.queue.remove(position - 1) {
            Some(t) => Ok(t),
            None => Err(MusicError::QueuePositionOutOfBounds),
        }
    }

    /// Jumps to the track at a 1-based queue position: removes it from the queue
    /// (it is returned, to be started), and moves the tracks ahead of it to the
    /// history in order.
    pub fn queue_jump_take(&mut self, position: usize) -> (r: Result<QueuedTrack, MusicError>)
        ensures
            position == 0 ==> r == Err::<QueuedTrack, MusicError>(MusicError::PositionZero),
            position > old(self)@.queue.len() && position > 0 ==> r == Err::<
                QueuedTrack,
                MusicError,
            >(MusicError::QueuePositionOutOfBounds),
            r is Err ==> final(self)@ == old(self)@,
            0 < position <= old(self)@.queue.len() ==> r == Ok::<QueuedTrack, MusicError>(
                old(self)@.queue[position - 1],
            ) && final(self)@ == (PlayerState {
                queue: old(self)@.queue.skip(position as int),
                history: spec_push_history(
                    old(self)@.history,
                    old(self)@.queue.take(position - 1),
                ),
                ..old(self)@
            }),
            final(self).current_started_at_ms == old(self).current_started_at_ms,
            final(self).current_paused_at_ms == old(self).current_paused_at_ms,
            final(self).current_paused_total_ms == old(self).current_paused_total_ms,
    {
        if position == 0 {
            return Err(MusicError::PositionZero);
        }
        if position > self.queue.len() {
            return Err(MusicError::QueuePositionOutOfBounds);
        }
        let target_index = position - 1;
        let mut rest = self.queue.split_off(target_index);
        let target = match rest.pop_front() {
            Some(t) => t,
            None => {
                proof {
                    assert(false);
                }
                return Err(MusicError::QueuePositionOutOfBounds);
            },
        };
        std::mem::swap(&mut rest, &mut self.queue);
        let skipped = deque_into_vec(rest);
        proof {
            assert(skipped@ =~= old(self)@.queue.take(position - 1));
            assert(self.queue@ =~= old(self)@.queue.skip(position as int));
        }
        push_history_to(&mut self.history, skipped);
        Ok(target)
    }

    /// The play history, most recent first.
    pub fn history_list(&self) -> (r: Vec<QueuedTrack>)
        ensures
            r@ == spec_history_list(self@.history),
    {
        let mut r: Vec<QueuedTrack> = Vec::new();
        let n = self.history.len();
        let mut i: usize = n;
        while i > 0
            invariant
                n == self@.history.len(),
                i <= n,
                r@ == self@.history.skip(i as int).reverse(),
            decreases i,
        {
            i = i - 1;
            r.push(self.history[i].duplicate());
            proof {
                assert(self@.history.skip(i as int).reverse() =~= self@.history.skip(
                    i as int + 1,
                ).reverse().push(self@.history[i as int]));
            }
        }
        proof {
            assert(self@.history.skip(0) =~= self@.history);
        }
        r
    }

    /// The history entry at a 1-based position counted from the most recent.
    pub fn history_jump_target(&self, position: usize) -> (r: Result<QueuedTrack, MusicError>)
        ensures
            position == 0 ==> r == Err::<QueuedTrack, MusicError>(MusicError::PositionZero),
            position > self@.history.len() && position > 0 ==> r == Err::<
                QueuedTrack,
                MusicError,
            >(MusicError::HistoryPositionOutOfBounds),
            0 < position <= self@.history.len() ==> r == Ok::<QueuedTrack, MusicError>(
                self@.history[self@.history.len() - position],
            ),
    {
        if position == 0 {
            return Err(MusicError::PositionZero);
        }
        let len = self.history.len();
        if position > len {
            return Err(MusicError::HistoryPositionOutOfBounds);
        }
        Ok(self.history[len - position].duplicate())
    }

    /// The current metadata and copies of the queued tracks.
    pub fn queue_snapshot(&self) -> (r: QueueSnapshot)
        ensures
            r.current_meta == self@.current_meta,
            r.queue@ == self@.queue,
    {
        let current_meta = match &self.current_meta {
            Some(m) => Some(m.duplicate()),
            None => None,
        };
        QueueSnapshot { current_meta, queue: duplicate_tracks(&self.queue) }
    }

    /// Whether a track-end notification concerns the playing stream.
    pub fn is_current_handle(&self, handle: u128) -> (r: bool)
        ensures
            r == (self@.current == Some(handle)),
    {
        match self.current {
            Some(h) => h == handle,
            None => false,
        }
    }

    /// Finishes the current track into the history and takes the next track off
    /// the front of the queue (returned, to be started).
    pub fn advance(&mut self) -> (next: Option<QueuedTrack>)
        ensures
            final(self)@ == spec_advance(old(self)@),
            next == (if old(self)@.queue.len() > 0 {
                Some(old(self)@.queue[0])
            } else {
                None::<QueuedTrack>
            }),
            final(self).current_started_at_ms == old(self).current_started_at_ms,
            final(self).current_paused_at_ms == old(self).current_paused_at_ms,
            final(self).current_paused_total_ms == old(self).current_paused_total_ms,
    {
        if let Some(finished) = self.current_track.take() {
            self.push_history(finished);
        }
        self.current = None;
        self.current_meta = None;
        let next = self.queue.pop_front();
        proof {
            assert(old(self)@.queue.subrange(1, old(self)@.queue.len() as int) =~= old(
                self,
            )@.queue.drop_first());
        }
        next
    }

    /// Skips the playing track: fails when nothing plays; otherwise returns the
    /// stopped stream handle, the title of the next queued track, and the next
    /// track (taken off the queue, to be started).
    pub fn skip(&mut self) -> (r: Result<(u128, Option<String>, Option<QueuedTrack>), MusicError>)
        ensures
            old(self)@.current is None ==> r == Err::<
                (u128, Option<String>, Option<QueuedTrack>),
                MusicError,
            >(MusicError::NothingPlaying) && final(self)@ == old(self)@,
            old(self)@.current is Some ==> r is Ok && r->Ok_0.0 == old(self)@.current->0
                && r->Ok_0.1 == (if old(self)@.queue.len() > 0 {
                old(self)@.queue[0].metadata.title
            } else {
                None::<String>
            }) && r->Ok_0.2 == (if old(self)@.queue.len() > 0 {
                Some(old(self)@.queue[0])
            } else {
                None::<QueuedTrack>
            }) && final(self)@ == spec_advance(old(self)@),
            final(self).current_started_at_ms == old(self).current_started_at_ms,
            final(self).current_paused_at_ms == old(self).current_paused_at_ms,
            final(self).current_paused_total_ms == old(self).current_paused_total_ms,
    {
        let handle = match self.current {
            Some(h) => h,
            None => return Err(MusicError::NothingPlaying),
        };
        let next_title = if self.queue.len() > 0 {
            copy_opt_string(&self.queue[0].metadata.title)
        } else {
            None
        };
        let next = self.advance();
        Ok((handle, next_title, next))
    }

    /// Takes the most recent history entry (to be started again), failing when
    /// the history is empty.
    pub fn prev_take(&mut self) -> (r: Result<QueuedTrack, MusicError>)
        ensures
            old(self)@.history.len() == 0 ==> r == Err::<QueuedTrack, MusicError>(
                MusicError::NoPreviousTrack,
            ) && final(self)@ == old(self)@,
            old(self)@.history.len() > 0 ==> r == Ok::<QueuedTrack, MusicError>(
                old(self)@.history.last(),
            ) && final(self)@ == (PlayerState {
                history: old(self)@.history.drop_last(),
                ..old(self)@
            }),
            final(self).current_started_at_ms == old(self).current_started_at_ms,
            final(self).current_paused_at_ms == old(self).current_paused_at_ms,
            final(self).current_paused_total_ms == old(self).current_paused_total_ms,
    {
        match self.history.pop() {
            Some(t) => Ok(t),
            None => Err(MusicError::NoPreviousTrack),
        }
    }

    /// Stops playback: empties the queue, archives the current track and returns
    /// the handle of the stream to stop.
    pub fn stop(&mut self) -> (old_handle: Option<u128>)
        ensures
            old_handle == old(self)@.current,
            final(self)@ == spec_stop(old(self)@),
            final(self).current_started_at_ms == old(self).current_started_at_ms,
            final(self).current_paused_at_ms == old(self).current_paused_at_ms,
            final(self).current_paused_total_ms == old(self).current_paused_total_ms,
    {
        self.queue.clear();
        if let Some(finished) = self.current_track.take() {
            self.push_history(finished);
        }
        let old_handle = self.current.take();
        self.current_meta = None;
        old_handle
    }

    /// Appends placeholder entries for the remaining tracks of a playlist; their
    /// display title is the search term without its `ytsearch:` prefix.
    pub fn populate_queue(&mut self, requested_by: &String, requested_by_id: u64, terms: Vec<String>)
        ensures
            final(self)@.current == old(self)@.current,
            final(self)@.current_track == old(self)@.current_track,
            final(self)@.current_meta == old(self)@.current_meta,
            final(self)@.history == old(self)@.history,
            final(self)@.queue.len() == old(self)@.queue.len() + terms@.len(),
            final(self)@.queue.take(old(self)@.queue.len() as int) == old(self)@.queue,
            forall|i: int|
                0 <= i < terms@.len() ==> {
                    let t = #[trigger] final(self)@.queue[old(self)@.queue.len() + i];
                    &&& t.query == terms@[i]
                    &&& t.requested_by == *requested_by
                    &&& t.requested_by_id == requested_by_id
                    &&& t.metadata.title is Some
                    &&& t.metadata.title->0@ == placeholder_title(terms@[i]@)
                    &&& t.metadata.artist is None
                    &&& t.metadata.duration_ms is None
                    &&& t.metadata.thumbnail is None
                    &&& t.metadata.source_url is None
                },
            final(self).current_started_at_ms == old(self).current_started_at_ms,
            final(self).current_paused_at_ms == old(self).current_paused_at_ms,
            final(self).current_paused_total_ms == old(self).current_paused_total_ms,
    {
        let n0 = self.queue.len();
        let mut i: usize = 0;
        while i < terms.len()
            invariant
                n0 == old(self)@.queue.len(),
                i <= terms@.len(),
                self@.current == old(self)@.current,
                self@.current_track == old(self)@.current_track,
                self@.current_meta == old(self)@.current_meta,
                self@.history == old(self)@.history,
                self@.queue.len() == n0 + i,
                self@.queue.take(n0 as int) == old(self)@.queue,
                self.current_started_at_ms == old(self).current_started_at_ms,
                self.current_paused_at_ms == old(self).current_paused_at_ms,
                self.current_paused_total_ms == old(self).current_paused_total_ms,
                forall|j: int|
                    0 <= j < i ==> {
                        let t = #[trigger] self@.queue[n0 + j];
                        &&& t.query == terms@[j]
                        &&& t.requested_by == *requested_by
                        &&& t.requested_by_id == requested_by_id
                        &&& t.metadata.title is Some
                        &&& t.metadata.title->0@ == placeholder_title(terms@[j]@)
                        &&& t.metadata.artist is None
                        &&& t.metadata.duration_ms is None
                        &&& t.metadata.thumbnail is None
                        &&& t.metadata.source_url is None
                    },
            decreases terms@.len() - i,
        {
            let term = &terms[i];
            proof {
                reveal_strlit("ytsearch:");
            }
            let display_title = match strip_prefix_str(term.as_str(), "ytsearch:") {
                Some(rest) => to_owned_str(rest),
                None => term.clone(),
            };
            let mut meta = TrackMeta::empty();
            meta.title = Some(display_title);
            let track = QueuedTrack {
                query: term.clone(),
                metadata: meta,
                requested_by: requested_by.clone(),
                requested_by_id,
            };
            let ghost before = self@.queue;
            self.queue.push_back(track);
            proof {
                assert(self@.queue.take(n0 as int) =~= before.take(n0 as int));
                assert forall|j: int| 0 <= j < i + 1 implies {
                    let t = #[trigger] self@.queue[n0 + j];
                    &&& t.query == terms@[j]
                    &&& t.requested_by == *requested_by
                    &&& t.requested_by_id == requested_by_id
                    &&& t.metadata.title is Some
                    &&& t.metadata.title->0@ == placeholder_title(terms@[j]@)
                    &&& t.metadata.artist is None
                    &&& t.metadata.duration_ms is None
                    &&& t.metadata.thumbnail is None
                    &&& t.metadata.source_url is None
                } by {
                    if j < i {
                        assert(self@.queue[n0 + j] == before[n0 + j]);
                    }
                }
            }
            i = i + 1;
        }
    }

    /// Takes a random permutation of the queue, returning how many tracks it holds.
    pub fn queue_shuffle(&mut self) -> (count: usize)
        ensures
            count == old(self)@.queue.len(),
            final(self)@.queue.to_multiset() == old(self)@.queue.to_multiset(),
            final(self)@.queue.len() == old(self)@.queue.len(),
            final(self)@.current == old(self)@.current,
            final(self)@.current_track == old(self)@.current_track,
            final(self)@.current_meta == old(self)@.current_meta,
            final(self)@.history == old(self)@.history,
            final(self).current_started_at_ms == old(self).current_started_at_ms,
            final(self).current_paused_at_ms == old(self).current_paused_at_ms,
            final(self).current_paused_total_ms == old(self).current_paused_total_ms,
    {
        let count = self.queue.len();
        shuffle_tracks(&mut self.queue);
        count
    }
}

/// Listened time of the current segment: wall time since it started minus the
/// time spent paused (up to `now`), clamped at zero.
pub open spec fn active_listened_ms(
    started_at: Option<u64>,
    paused_at: Option<u64>,
    paused_total: u64,
    now: u64,
) -> nat {
    match started_at {
        Some(st) => {
            let total = if now >= st {
                now - st
            } else {
                0
            };
            let paused = paused_total + match paused_at {
                Some(p) => if now >= p {
                    now - p
                } else {
                    0
                },
                None => 0,
            };
            if total >= paused {
                (total - paused) as nat
            } else {
                0
            }
        },
        None => 0,
    }
}

/// Listened time reported for a finished segment: the active listened time, at
/// most `i64::MAX`, and at most the track's duration when it is known.
pub open spec fn reported_listened_ms(active: nat, duration_ms: Option<u64>) -> int {
    let listened = if active > i64::MAX {
        i64::MAX as int
    } else {
        active as int
    };
    match duration_ms {
        Some(d) => if listened > d {
            d as int
        } else {
            listened
        },
        None => listened,
    }
}

impl GuildPlayer {
    /// Restarts the playback timer of the current track at `now`.
    pub fn mark_started(&mut self, now_ms: u64)
        ensures
            final(self)@ == old(self)@,
            final(self).current_started_at_ms == Some(now_ms),
            final(self).current_paused_at_ms is None,
            final(self).current_paused_total_ms == 0,
    {
        self.current_started_at_ms = Some(now_ms);
        self.current_paused_at_ms = None;
        self.current_paused_total_ms = 0;
    }

    /// Notes that playback was paused at `now` (the first pause counts).
    pub fn mark_paused(&mut self, now_ms: u64)
        ensures
            final(self)@ == old(self)@,
            final(self).current_started_at_ms == old(self).current_started_at_ms,
            final(self).current_paused_at_ms == (if old(self).current_paused_at_ms is None {
                Some(now_ms)
            } else {
                old(self).current_paused_at_ms
            }),
            final(self).current_paused_total_ms == old(self).current_paused_total_ms,
    {
        if self.current_paused_at_ms.is_none() {
            self.current_paused_at_ms = Some(now_ms);
        }
    }

    /// Notes that playback resumed at `now`, adding the paused stretch to the total.
    pub fn mark_resumed(&mut self, now_ms: u64)
        ensures
            final(self)@ == old(self)@,
            final(self).current_started_at_ms == old(self).current_started_at_ms,
            final(self).current_paused_at_ms is None,
            final(self).current_paused_total_ms == match old(self).current_paused_at_ms {
                Some(p) => {
                    let add = if now_ms >= p {
                        now_ms - p
                    } else {
                        0
                    };
                    if old(self).current_paused_total_ms + add > u64::MAX {
                        u64::MAX as int
                    } else {
                        old(self).current_paused_total_ms + add
                    }
                },
                None => old(self).current_paused_total_ms as int,
            },
    {
        if let Some(p) = self.current_paused_at_ms.take() {
            let add = now_ms.saturating_sub(p);
            self.current_paused_total_ms = self.current_paused_total_ms.saturating_add(add);
        }
    }

    /// Wall-clock time the current track has been audible, as of `now`.
    pub fn wall_clock_elapsed_ms(&self, now_ms: u64) -> (r: u128)
        ensures
            r == active_listened_ms(
                self.current_started_at_ms,
                self.current_paused_at_ms,
                self.current_paused_total_ms,
                now_ms,
            ),
    {
        match self.current_started_at_ms {
            Some(st) => {
                let total: u128 = now_ms.saturating_sub(st) as u128;
                let paused_extra: u128 = match self.current_paused_at_ms {
                    Some(p) => now_ms.saturating_sub(p) as u128,
                    None => 0,
                };
                let paused: u128 = self.current_paused_total_ms as u128 + paused_extra;
                if total >= paused {
                    total - paused
                } else {
                    0
                }
            },
            None => 0,
        }
    }

    /// Closes the playback timer of the current segment and returns the listened
    /// time to report for it (in milliseconds, capped by the track's duration).
    pub fn finish_play_stats(&mut self, now_ms: u64) -> (listened_ms: i64)
        ensures
            final(self)@ == old(self)@,
            listened_ms == reported_listened_ms(
                active_listened_ms(
                    old(self).current_started_at_ms,
                    old(self).current_paused_at_ms,
                    old(self).current_paused_total_ms,
                    now_ms,
                ),
                match old(self)@.current_meta {
                    Some(m) => m.duration_ms,
                    None => None,
                },
            ),
            final(self).current_started_at_ms is None,
            final(self).current_paused_at_ms == (if old(self).current_started_at_ms is Some {
                None
            } else {
                old(self).current_paused_at_ms
            }),
            final(self).current_paused_total_ms == 0,
    {
        let fallback: Option<u64> = match &self.current_meta {
            Some(m) => m.duration_ms,
            None => None,
        };
        let active = self.wall_clock_elapsed_ms(now_ms);
        if self.current_started_at_ms.is_some() {
            self.current_paused_at_ms = None;
        }
        self.current_started_at_ms = None;
        let mut listened: i64 = if active > i64::MAX as u128 {
            i64::MAX
        } else {
            active as i64
        };
        if let Some(total) = fallback {
            let max: i64 = if total > i64::MAX as u64 {
                i64::MAX
            } else {
                total as i64
            };
            if listened > max {
                listened = max;
            }
        }
        self.current_paused_total_ms = 0;
        listened
    }

    /// Checks a seek request, in the order the player refuses them: a seek already
    /// running, a live stream, a seek within 400 ms of the last one, nothing
    /// playing, and an input that is not a timestamp or offset.
    pub fn check_seek(
        &self,
        seek_in_flight: bool,
        since_last_seek_ms: Option<u64>,
        input: &str,
    ) -> (r: Result<SeekMode, MusicError>)
        requires
            seek_input_fits(input@),
        ensures
            r == (if seek_in_flight {
                Err(MusicError::SeekInFlight)
            } else if self@.current_meta is Some && spec_is_live_stream(
                self@.current_meta->0,
            ) {
                Err(MusicError::SeekLiveStream)
            } else if since_last_seek_ms is Some && since_last_seek_ms->0 < 400 {
                Err(MusicError::SeekTooQuick)
            } else if self@.current is None {
                Err(MusicError::NothingPlaying)
            } else {
                match spec_parse_seek(input@) {
                    Some(m) => Ok(m),
                    None => Err(MusicError::InvalidSeekInput),
                }
            }),
    {
        if seek_in_flight {
            return Err(MusicError::SeekInFlight);
        }
        if let Some(m) = &self.current_meta {
            if is_live_stream(m) {
                return Err(MusicError::SeekLiveStream);
            }
        }
        if let Some(since) = since_last_seek_ms {
            if since < 400 {
                return Err(MusicError::SeekTooQuick);
            }
        }
        if self.current.is_none() {
            return Err(MusicError::NothingPlaying);
        }
        match parse_seek_input(input) {
            Some(m) => Ok(m),
            None => Err(MusicError::InvalidSeekInput),
        }
    }
}

/// Where a seek lands, in milliseconds: an absolute target, or the current
/// position moved forward or backward (not below zero); a target at or past the
/// end of a track of known length lands half a second before its end.
pub open spec fn spec_seek_target(mode: SeekMode, current_pos_ms: u128, total_ms: Option<u128>) -> int {
    let target: int = match mode {
        SeekMode::Absolute(d) => d * 1000,
        SeekMode::RelativeForward(d) => current_pos_ms + d * 1000,
        SeekMode::RelativeBackward(d) => if current_pos_ms >= d * 1000 {
            current_pos_ms - d * 1000
        } else {
            0
        },
    };
    match total_ms {
        Some(t) => if target >= t {
            if t >= 500 {
                t - 500
            } else {
                0
            }
        } else {
            target
        },
        None => target,
    }
}

/// Where seeks land: forward by `d` seconds moves `d * 1000` ms past the
/// current position and backward by `d` moves that far back (stopping at the
/// start), an absolute seek goes to `d * 1000` ms; a target at or past the end
/// of a track of known length lands half a second before its end (or at 0),
/// so no seek lands at or past the end. Going forward and then back by the
/// same amount returns to where it started while it stays before the end.
pub proof fn law_seek_lands(d: u64, current_pos_ms: u128, total_ms: Option<u128>)
    ensures
        ({
            let fwd = spec_seek_target(SeekMode::RelativeForward(d), current_pos_ms, total_ms);
            &&& (total_ms is None || current_pos_ms + d * 1000 < total_ms->0) ==> fwd
                == current_pos_ms + d * 1000 && fwd >= current_pos_ms
            &&& (total_ms is Some && current_pos_ms + d * 1000 >= total_ms->0) ==> fwd == if total_ms->0
                >= 500 {
                total_ms->0 - 500
            } else {
                0
            }
        }),
        ({
            let back = spec_seek_target(SeekMode::RelativeBackward(d), current_pos_ms, total_ms);
            (total_ms is None || current_pos_ms < total_ms->0) ==> back <= current_pos_ms && back
                >= 0 && (current_pos_ms >= d * 1000 ==> back == current_pos_ms - d * 1000) && (
            current_pos_ms < d * 1000 ==> back == 0)
        }),
        (total_ms is None || d * 1000 < total_ms->0) ==> spec_seek_target(
            SeekMode::Absolute(d),
            current_pos_ms,
            total_ms,
        ) == d * 1000,
        forall|m: SeekMode|
            (total_ms matches Some(t) && t > 0) ==> #[trigger] spec_seek_target(
                m,
                current_pos_ms,
                total_ms,
            ) < total_ms->0,
        current_pos_ms + d * 1000 <= u128::MAX && (total_ms is None || current_pos_ms + d * 1000
            < total_ms->0) ==> spec_seek_target(
            SeekMode::RelativeBackward(d),
            (current_pos_ms + d * 1000) as u128,
            total_ms,
        ) == current_pos_ms,
{
}

/// Computes where a seek lands.
pub fn seek_target(mode: SeekMode, current_pos_ms: u128, total_ms: Option<u128>) -> (r: u128)
    requires
        current_pos_ms <= u64::MAX as int * 1000 + 999,
    ensures
        r == spec_seek_target(mode, current_pos_ms, total_ms),
{
    let target: u128 = match mode {
        SeekMode::Absolute(d) => d as u128 * 1000,
        SeekMode::RelativeForward(d) => current_pos_ms + d as u128 * 1000,
        SeekMode::RelativeBackward(d) => current_pos_ms.saturating_sub(d as u128 * 1000),
    };
    match total_ms {
        Some(t) => {
            if target >= t {
                t.saturating_sub(500)
            } else {
                target
            }
        },
        None => target,
    }
}

/// The position a player believes it is at when the audio engine does not
/// answer: the last seek target plus the time since the track (re)started,
/// less the completed pauses.
pub open spec fn spec_fallback_position(
    last_seek_target_ms: u128,
    started_at: Option<u64>,
    paused_total: u64,
    now: u64,
) -> int {
    last_seek_target_ms + match started_at {
        Some(st) => {
            let e: int = if now >= st {
                now - st
            } else {
                0
            };
            if e >= paused_total {
                e - paused_total
            } else {
                0
            }
        },
        None => 0,
    }
}

impl GuildPlayer {
    /// The estimated playback position when the audio engine does not answer.
    pub fn fallback_position_ms(&self, last_seek_target_ms: u128, now_ms: u64) -> (r: u128)
        requires
            last_seek_target_ms <= u64::MAX,
        ensures
            r == spec_fallback_position(
                last_seek_target_ms,
                self.current_started_at_ms,
                self.current_paused_total_ms,
                now_ms,
            ),
    {
        let extra: u64 = match self.current_started_at_ms {
            Some(st) => now_ms.saturating_sub(st).saturating_sub(self.current_paused_total_ms),
            None => 0,
        };
        last_seek_target_ms + extra as u128
    }
}

/// A track that ended this far from its expected end was cut off by a dropped
/// stream: it is longer than 15 s, stopped more than 5 s before its end, and
/// fewer than three retries were made.
pub open spec fn spec_is_premature_drop(estimated_end_ms: int, total_ms: Option<u64>, retry_count: usize) -> bool {
    let total: int = match total_ms {
        Some(t) => t as int,
        None => 0,
    };
    total > 15000 && estimated_end_ms < total - 5000 && retry_count < 3
}

/// Decides whether a track end was a dropped stream that should be resumed.
pub fn is_premature_drop(estimated_end_ms: u128, total_ms: Option<u64>, retry_count: usize) -> (r: bool)
    ensures
        r == spec_is_premature_drop(estimated_end_ms as int, total_ms, retry_count),
{
    let total: u64 = match total_ms {
        Some(t) => t,
        None => 0,
    };
    total > 15000 && estimated_end_ms < (total - 5000) as u128 && retry_count < 3
}

/// A live stream that dropped again within five seconds of its last reconnect is
/// treated as dead instead of being reconnected.
pub fn may_reconnect_live(since_last_reconnect_ms: Option<u64>) -> (r: bool)
    ensures
        r == !(since_last_reconnect_ms is Some && since_last_reconnect_ms->0 < 5000),
{
    match since_last_reconnect_ms {
        Some(e) => e >= 5000,
        None => true,
    }
}

/// rand's `SliceRandom::shuffle` with the thread-local generator, on the
/// deque's contiguous slice: a uniformly random permutation; the contract
/// claims only that the tracks are permuted.
#[verifier::external_body]
fn shuffle_tracks(v: &mut VecDeque<QueuedTrack>)
    ensures
        final(v)@.to_multiset() == old(v)@.to_multiset(),
        final(v)@.len() == old(v)@.len(),
{
    v.make_contiguous().shuffle(&mut rand::rng());
}

} // verus!
