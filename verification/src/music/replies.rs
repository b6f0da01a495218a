//! The texts of the music commands: queue and history pages, and the replies
//! to each command.

use crate::music::state::{display_title, PlayOutcome, QueueAddOutcome, QueueSnapshot, QueuedTrack, StartedTrackInfo, TrackMeta};
use crate::music::timestamp::{format_duration, spec_format_duration};
use crate::text::{decimal, eq_str, push_decimal};
use vstd::prelude::*;

verus! {

/// Tracks shown per page of the queue and history lists.
pub const PAGE_SIZE: usize = 10;

/// Number of pages of a list of `total` tracks; an empty list still has one.
pub open spec fn spec_page_count(total: nat) -> nat {
    if total == 0 {
        1
    } else {
        ((total + 9) / 10) as nat
    }
}

/// Counts the pages of a list.
pub fn page_count(total: usize) -> (r: usize)
    ensures
        r == spec_page_count(total as nat),
        r >= 1,
{
    if total == 0 {
        1
    } else {
        total / 10 + if total % 10 == 0 {
            0
        } else {
            1
        }
    }
}

/// A track's title as shown in a list: a link when it has a source URL (other
/// than `#`), else in bold; `Untitled` when it has no title.
pub open spec fn spec_title_markup(meta: TrackMeta) -> Seq<char> {
    let t = match meta.title {
        Some(t) => t@,
        None => "Untitled"@,
    };
    match meta.source_url {
        Some(u) => if u@ != "#"@ {
            "["@ + t + "]("@ + u@ + ")"@
        } else {
            "**"@ + t + "**"@
        },
        None => "**"@ + t + "**"@,
    }
}

/// Writes a track's title as shown in a list.
pub fn title_markup(meta: &TrackMeta) -> (r: String)
    ensures
        r@ == spec_title_markup(*meta),
{
    let t: &str = match &meta.title {
        Some(t) => t.as_str(),
        None => "Untitled",
    };
    let linked = match &meta.source_url {
        Some(u) => !eq_str(u.as_str(), "#"),
        None => false,
    };
    if linked {
        let u = match &meta.source_url {
            Some(u) => u.as_str(),
            None => "",
        };
        let mut r = String::from_str("[");
        r.append(t);
        r.append("](");
        r.append(u);
        r.append(")");
        r
    } else {
        let mut r = String::from_str("**");
        r.append(t);
        r.append("**");
        r
    }
}

/// A track's length as shown after its title, in whole seconds; nothing when
/// the length is unknown.
pub open spec fn spec_duration_suffix(meta: TrackMeta) -> Seq<char> {
    match meta.duration_ms {
        Some(ms) => " | `"@ + spec_format_duration(Some(ms / 1000)) + "`"@,
        None => Seq::empty(),
    }
}

/// One line of the queue list.
pub open spec fn spec_queue_line(num: nat, t: QueuedTrack) -> Seq<char> {
    decimal(num) + ". "@ + spec_title_markup(t.metadata) + spec_duration_suffix(t.metadata)
        + " (Requested by **"@ + t.requested_by@ + "**)\n"@
}

/// One line of the history list.
pub open spec fn spec_history_line(num: nat, t: QueuedTrack) -> Seq<char> {
    decimal(num) + ". "@ + spec_title_markup(t.metadata) + spec_duration_suffix(t.metadata) + "\n"@
}

/// The lines of tracks numbered from `first`, in the queue or history style.
pub open spec fn spec_lines(tracks: Seq<QueuedTrack>, first: nat, queue_style: bool) -> Seq<char>
    decreases tracks.len(),
{
    if tracks.len() == 0 {
        Seq::empty()
    } else {
        let num = (first + tracks.len() - 1) as nat;
        spec_lines(tracks.drop_last(), first, queue_style) + if queue_style {
            spec_queue_line(num, tracks.last())
        } else {
            spec_history_line(num, tracks.last())
        }
    }
}

/// The tracks of page `page_idx` (counted from 0).
pub open spec fn page_tracks(tracks: Seq<QueuedTrack>, page_idx: nat) -> Seq<QueuedTrack> {
    let start: int = (page_idx * 10) as int;
    let end: int = if start + 10 < tracks.len() {
        start + 10
    } else {
        tracks.len() as int
    };
    tracks.subrange(start, end)
}

/// Appends one line of the queue or history list.
fn push_line(out: &mut String, t: &QueuedTrack, num: u64, queue_style: bool)
    ensures
        final(out)@ == old(out)@ + if queue_style {
            spec_queue_line(num as nat, *t)
        } else {
            spec_history_line(num as nat, *t)
        },
{
    push_decimal(out, num);
    out.append(". ");
    let title = title_markup(&t.metadata);
    out.append(title.as_str());
    match t.metadata.duration_ms {
        Some(ms) => {
            out.append(" | `");
            let d = format_duration(Some(ms / 1000));
            out.append(d.as_str());
            out.append("`");
        },
        None => {
            proof {
                assert(out@ + Seq::<char>::empty() =~= out@);
            }
        },
    }
    if queue_style {
        out.append(" (Requested by **");
        out.append(t.requested_by.as_str());
        out.append("**)\n");
    } else {
        out.append("\n");
    }
    proof {
        assert(final(out)@ =~= old(out)@ + if queue_style {
            spec_queue_line(num as nat, *t)
        } else {
            spec_history_line(num as nat, *t)
        });
    }
}

/// Appends the lines of `tracks[start..end]`, numbered from `start + 1`.
fn push_lines(out: &mut String, tracks: &Vec<QueuedTrack>, start: usize, end: usize, queue_style: bool)
    requires
        start <= end <= tracks@.len(),
    ensures
        final(out)@ == old(out)@ + spec_lines(tracks@.subrange(start as int, end as int), (start + 1) as nat, queue_style),
{
    let ghost head = out@;
    let mut i: usize = start;
    proof {
        assert(tracks@.subrange(start as int, start as int) =~= Seq::<QueuedTrack>::empty());
        assert(head + Seq::<char>::empty() =~= head);
    }
    while i < end
        invariant
            start <= i <= end <= tracks@.len(),
            out@ == head + spec_lines(tracks@.subrange(start as int, i as int), (start + 1) as nat, queue_style),
        decreases end - i,
    {
        let ghost before = out@;
        push_line(out, &tracks[i], (i + 1) as u64, queue_style);
        proof {
            let sub = tracks@.subrange(start as int, i as int + 1);
            assert(sub.drop_last() =~= tracks@.subrange(start as int, i as int));
            assert(sub.last() == tracks@[i as int]);
            assert(spec_lines(sub, (start + 1) as nat, queue_style) == spec_lines(
                tracks@.subrange(start as int, i as int),
                (start + 1) as nat,
                queue_style,
            ) + if queue_style {
                spec_queue_line((i + 1) as nat, tracks@[i as int])
            } else {
                spec_history_line((i + 1) as nat, tracks@[i as int])
            });
        }
        i = i + 1;
    }
}

/// The end (exclusive) of page `page_idx` of a list of `len` tracks.
fn page_end(len: usize, start: usize) -> (r: usize)
    requires
        start <= len,
    ensures
        r == if start + 10 < len {
            start + 10
        } else {
            len as int
        },
{
    if len - start > 10 {
        start + 10
    } else {
        len
    }
}

/// The description of a queue page: the playing track (if any), then the page
/// of upcoming tracks or a note that the queue is empty.
pub open spec fn spec_queue_page(s: QueueSnapshot, page_idx: nat) -> Seq<char> {
    let pages = spec_page_count(s.queue@.len());
    (match s.current_meta {
        Some(m) => "**Now Playing:**\n"@ + spec_title_markup(m) + " | `"@ + spec_format_duration(
            match m.duration_ms {
                Some(ms) => Some((ms / 1000) as u64),
                None => None,
            },
        ) + "`\n\n"@,
        None => Seq::empty(),
    }) + if s.queue@.len() == 0 {
        "**Up Next:**\nNo tracks in queue."@
    } else {
        "**Up Next (Page "@ + decimal(page_idx + 1) + "/"@ + decimal(pages) + "):**\n"@ + spec_lines(
            page_tracks(s.queue@, page_idx),
            page_idx * 10 + 1,
            true,
        )
    }
}

/// Writes page `page_idx` (from 0) of the queue list: its description and its
/// footer.
pub fn queue_page(s: &QueueSnapshot, page_idx: usize) -> (r: (String, String))
    requires
        page_idx < spec_page_count(s.queue@.len()),
    ensures
        r.0@ == spec_queue_page(*s, page_idx as nat),
        r.1@ == "Total queued tracks: "@ + decimal(s.queue@.len()) + " | Page "@ + decimal(
            page_idx as nat + 1,
        ) + "/"@ + decimal(spec_page_count(s.queue@.len())),
{
    let total = s.queue.len();
    let pages = page_count(total);
    let start = page_idx * 10;
    let mut d = String::new();
    match &s.current_meta {
        Some(m) => {
            d.append("**Now Playing:**\n");
            let t = title_markup(m);
            d.append(t.as_str());
            d.append(" | `");
            let secs: Option<u64> = match m.duration_ms {
                Some(ms) => Some(ms / 1000),
                None => None,
            };
            let f = format_duration(secs);
            d.append(f.as_str());
            d.append("`\n\n");
        },
        None => {},
    }
    let ghost head = d@;
    if total == 0 {
        d.append("**Up Next:**\nNo tracks in queue.");
    } else {
        d.append("**Up Next (Page ");
        push_decimal(&mut d, (page_idx + 1) as u64);
        d.append("/");
        push_decimal(&mut d, pages as u64);
        d.append("):**\n");
        let end = page_end(total, start);
        push_lines(&mut d, &s.queue, start, end, true);
    }
    proof {
        assert(d@ =~= spec_queue_page(*s, page_idx as nat));
    }
    let mut f = String::from_str("Total queued tracks: ");
    push_decimal(&mut f, total as u64);
    f.append(" | Page ");
    push_decimal(&mut f, (page_idx + 1) as u64);
    f.append("/");
    push_decimal(&mut f, pages as u64);
    (d, f)
}

/// Writes page `page_idx` (from 0) of the history list (most recent first):
/// its description and its footer.
pub fn history_page(tracks: &Vec<QueuedTrack>, page_idx: usize) -> (r: (String, String))
    requires
        page_idx < spec_page_count(tracks@.len()),
    ensures
        r.0@ == spec_lines(page_tracks(tracks@, page_idx as nat), page_idx as nat * 10 + 1, false),
        r.1@ == "Most recent first | Page "@ + decimal(page_idx as nat + 1) + "/"@ + decimal(
            spec_page_count(tracks@.len()),
        ),
{
    let total = tracks.len();
    let pages = page_count(total);
    let start = page_idx * 10;
    let mut d = String::new();
    let end = page_end(total, start);
    push_lines(&mut d, tracks, start, end, false);
    let mut f = String::from_str("Most recent first | Page ");
    push_decimal(&mut f, (page_idx + 1) as u64);
    f.append("/");
    push_decimal(&mut f, pages as u64);
    (d, f)
}

/// The embed title answering `/music play`.
pub fn play_title(outcome: &PlayOutcome) -> (r: String)
    requires
        outcome matches PlayOutcome::Playlist { count, .. } ==> count >= 1,
    ensures
        match outcome {
            PlayOutcome::Single(info) => r@ == "Playing "@ + info.title@,
            PlayOutcome::Playlist { first_track, count } => r@ == "Playing "@ + first_track.title@
                + " (and queued "@ + decimal((count - 1) as nat) + " remaining playlist tracks)"@,
        },
{
    match outcome {
        PlayOutcome::Single(info) => {
            let mut r = String::from_str("Playing ");
            r.append(info.title.as_str());
            r
        },
        PlayOutcome::Playlist { first_track, count } => {
            let mut r = String::from_str("Playing ");
            r.append(first_track.title.as_str());
            r.append(" (and queued ");
            push_decimal(&mut r, (*count - 1) as u64);
            r.append(" remaining playlist tracks)");
            r
        },
    }
}

/// The embed title answering `/music queue add`.
pub fn add_title(outcome: &QueueAddOutcome) -> (r: String)
    ensures
        match outcome {
            QueueAddOutcome::Played(info) => r@ == "Playing "@ + info.title@,
            QueueAddOutcome::Queued(info) => r@ == "Queued "@ + info.title@,
            QueueAddOutcome::PlaylistQueued { count, .. } => r@ == "Queued "@ + decimal(*count as nat)
                + " tracks from Spotify Playlist!"@,
        },
{
    match outcome {
        QueueAddOutcome::Played(info) => {
            let mut r = String::from_str("Playing ");
            r.append(info.title.as_str());
            r
        },
        QueueAddOutcome::Queued(info) => {
            let mut r = String::from_str("Queued ");
            r.append(info.title.as_str());
            r
        },
        QueueAddOutcome::PlaylistQueued { count, .. } => {
            let mut r = String::from_str("Queued ");
            push_decimal(&mut r, *count as u64);
            r.append(" tracks from Spotify Playlist!");
            r
        },
    }
}

/// The reply to `/music next`.
pub fn skip_reply(next_title: Option<&str>) -> (r: String)
    ensures
        match next_title {
            Some(t) => r@ == "Skipped. Now playing **"@ + t@ + "**."@,
            None => r@ == "Skipped. Queue is empty, nothing left to play."@,
        },
{
    match next_title {
        Some(t) => {
            let mut r = String::from_str("Skipped. Now playing **");
            r.append(t);
            r.append("**.");
            r
        },
        None => String::from_str("Skipped. Queue is empty, nothing left to play."),
    }
}

/// The reply to `/music queue clear`.
pub fn clear_reply(count: usize) -> (r: String)
    ensures
        count == 0 ==> r@ == "The queue is already empty."@,
        count > 0 ==> r@ == "Cleared **"@ + decimal(count as nat) + "** tracks from the queue."@,
{
    if count == 0 {
        return String::from_str("The queue is already empty.");
    }
    let mut r = String::from_str("Cleared **");
    push_decimal(&mut r, count as u64);
    r.append("** tracks from the queue.");
    r
}

/// The reply to `/music queue shuffle`.
pub fn shuffle_reply(count: usize) -> (r: String)
    ensures
        count == 0 ==> r@ == "The queue is empty, there's nothing to shuffle."@,
        count > 0 ==> r@ == "Shuffled **"@ + decimal(count as nat) + "** tracks in the queue."@,
{
    if count == 0 {
        return String::from_str("The queue is empty, there's nothing to shuffle.");
    }
    let mut r = String::from_str("Shuffled **");
    push_decimal(&mut r, count as u64);
    r.append("** tracks in the queue.");
    r
}

/// The reply to `/music queue remove`.
pub fn removed_reply(removed: &QueuedTrack) -> (r: String)
    ensures
        r@ == "Removed **"@ + display_title(removed.metadata) + "** from the queue."@,
{
    let mut r = String::from_str("Removed **");
    match &removed.metadata.title {
        Some(t) => r.append(t.as_str()),
        None => r.append("untitled"),
    }
    r.append("** from the queue.");
    r
}

/// Surrounds a started track's title with a reply's text.
fn around_title(prefix: &str, info: &StartedTrackInfo, suffix: &str) -> (r: String)
    ensures
        r@ == prefix@ + info.title@ + suffix@,
{
    let mut r = String::from_str(prefix);
    r.append(info.title.as_str());
    r.append(suffix);
    r
}

/// The reply to `/music queue goto`.
pub fn jumped_reply(info: &StartedTrackInfo) -> (r: String)
    ensures
        r@ == "Jumped to **"@ + info.title@ + "**."@,
{
    around_title("Jumped to **", info, "**.")
}

/// The reply to `/music history goto`.
pub fn replay_reply(info: &StartedTrackInfo) -> (r: String)
    ensures
        r@ == "Replaying **"@ + info.title@ + "**."@,
{
    around_title("Replaying **", info, "**.")
}

/// The reply to `/music prev`.
pub fn previous_reply(info: &StartedTrackInfo) -> (r: String)
    ensures
        r@ == "Playing previous track: **"@ + info.title@ + "**."@,
{
    around_title("Playing previous track: **", info, "**.")
}

/// The reply to `/music restart`.
pub fn restarted_reply(info: &StartedTrackInfo) -> (r: String)
    ensures
        r@ == "Restarted **"@ + info.title@ + "** from the beginning."@,
{
    around_title("Restarted **", info, "** from the beginning.")
}

/// The reply to `/music seek`, with the position reached in whole seconds.
pub fn seeked_reply(position_secs: u64) -> (r: String)
    ensures
        r@ == "Seeked current track to "@ + spec_format_duration(Some(position_secs)) + "."@,
{
    let mut r = String::from_str("Seeked current track to ");
    let d = format_duration(Some(position_secs));
    r.append(d.as_str());
    r.append(".");
    r
}

/// The reply to `/music go_to_channel`.
pub fn moved_reply(channel_name: &str) -> (r: String)
    ensures
        r@ == "Moved the music bot to **"@ + channel_name@ + "**."@,
{
    let mut r = String::from_str("Moved the music bot to **");
    r.append(channel_name);
    r.append("**.");
    r
}

/// Whether `/music queue list` has nothing to show.
pub fn queue_list_is_empty(s: &QueueSnapshot) -> (r: bool)
    ensures
        r == (s.current_meta is None && s.queue@.len() == 0),
{
    s.current_meta.is_none() && s.queue.len() == 0
}

} // verus!
