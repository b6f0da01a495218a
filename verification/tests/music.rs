use std::collections::VecDeque;
use mod_oud::music::decisions::{drop_recovery, queues_behind_current, resume_seek_target, split_playlist, track_end_step, voice_target, DropRecovery, TrackEndStep};
use mod_oud::music::replies::{
    add_title, clear_reply, history_page, jumped_reply, moved_reply, page_count, play_title, previous_reply, queue_list_is_empty,
    queue_page, removed_reply, replay_reply, restarted_reply, seeked_reply, shuffle_reply, skip_reply,
};
use mod_oud::music::ffmpeg::{decoder_args, resolver_args, resolver_failure_message, stream_url_from_output, FfmpegLiveInput};
use mod_oud::music::keys::{commands_channel, events_channel, replies_channel};
use mod_oud::music::query::build_query_url;
use mod_oud::music::spotify::{
    collect_search_terms, next_page_offset, playlist_terms_result, search_term, spotify_playlist_id, tracks_page_url,
    SpotifyTrack, SPOTIFY_PAGE_LIMIT,
};
use mod_oud::music::state::{
    is_live_stream, is_premature_drop, may_reconnect_live, seek_target, GuildPlayer, MusicError,
    OldTrackDisposition, PlayOutcome, QueueAddOutcome, QueueSnapshot, QueuedTrack, StartedTrackInfo, TrackMeta, HISTORY_LIMIT,
};
use mod_oud::music::stats::{should_flush, track_end_event, track_start_event, StatsEvent};
use mod_oud::music::timestamp::{format_duration, parse_seek_input, parse_timestamp, seek_input_in_range, timestamp_in_range, SeekMode};
use mod_oud::music::web::{needs_voice_channel, owns_guild, player_command, PlayerCommand, play_reply, resolve_voice_channel, web_requester, MusicChannelKind, WsQuery};
use mod_oud::music::web_command::{ack_for, command_outcome, PendingReplies, publish_failure, serialize_failure, ReplyWait, COMMAND_TIMEOUT_SECS, invalid_message_ack, result_for, MusicAction, RemoteMusicResult, ServerMessage};
use mod_oud::music::youtube::{
    collect_page_urls, extract_playlist_id, extract_video_id, is_youtube_playlist_candidate, next_page_token,
    playlist_items_url, video_url, watch_url,
};

#[test]
fn guild_routes_to_its_own_shard() {
    // Single shard: everything is ours.
    assert!(owns_guild(1, 0, 1));
    assert!(owns_guild(u64::MAX, 0, 1));

    // Two shards: guild's top bits decide the owner.
    let shard_one_guild: u64 = (1 << 22) + 12_345;
    let shard_two_guild: u64 = 2 << 22;
    assert!(owns_guild(shard_one_guild, 1, 2));
    assert!(!owns_guild(shard_one_guild, 0, 2));
    assert!(owns_guild(shard_two_guild, 0, 2));
    assert!(!owns_guild(shard_two_guild, 1, 2));
}

#[test]
fn zero_total_shards_never_owns() {
    assert!(!owns_guild(1, 0, 0));
}

#[test]
fn exactly_one_shard_owns_each_guild() {
    for guild in [0u64, 1 << 22, 5 << 22, 987_654_321_012_345] {
        let owners = (0..7u32).filter(|&i| owns_guild(guild, i, 7)).count();
        assert_eq!(owners, 1);
    }
}

#[test]
fn timestamps_parse_and_format() {
    assert_eq!(parse_timestamp("90"), Some(90));
    assert_eq!(parse_timestamp(" 1:30 "), Some(90));
    assert_eq!(parse_timestamp("1:02:03"), Some(3723));
    assert_eq!(parse_timestamp("1:60"), None);
    assert_eq!(parse_timestamp("a:b"), None);
    assert!(timestamp_in_range("1:30"));
    assert!(!timestamp_in_range("18446744073709551615:59"));
    assert_eq!(format_duration(Some(225)), "03:45");
    assert_eq!(format_duration(Some(4530)), "01:15:30");
    assert_eq!(format_duration(None), "Unknown");
    // A formatted duration reads back as the same number of seconds.
    for n in [0u64, 59, 60, 3599, 3600, 86_399, 1_000_000] {
        assert_eq!(parse_timestamp(&format_duration(Some(n))), Some(n));
    }
}

#[test]
fn seek_inputs() {
    assert_eq!(parse_seek_input("+30"), Some(SeekMode::RelativeForward(30)));
    assert_eq!(parse_seek_input("-15"), Some(SeekMode::RelativeBackward(15)));
    assert_eq!(parse_seek_input("+1:30"), Some(SeekMode::RelativeForward(90)));
    assert_eq!(parse_seek_input("1:30"), Some(SeekMode::Absolute(90)));
    assert_eq!(parse_seek_input("soon"), None);
    assert!(seek_input_in_range("+30"));
    assert_eq!(seek_target(SeekMode::Absolute(10), 0, Some(60_000)), 10_000);
    assert_eq!(seek_target(SeekMode::RelativeBackward(10), 5_000, None), 0);
    assert_eq!(seek_target(SeekMode::RelativeForward(100), 5_000, Some(60_000)), 59_500);
}

fn track(q: &str) -> QueuedTrack {
    QueuedTrack {
        query: q.to_string(),
        metadata: TrackMeta {
            title: Some(q.to_uppercase()),
            artist: None,
            duration_ms: Some(200_000),
            thumbnail: None,
            source_url: None,
        },
        requested_by: "user".to_string(),
        requested_by_id: 7,
    }
}

fn queries<'a>(v: impl IntoIterator<Item = &'a QueuedTrack>) -> Vec<String> {
    v.into_iter().map(|t| t.query.clone()).collect()
}

#[test]
fn player_queue_and_history() {
    let mut p = GuildPlayer::new();
    assert_eq!(p.skip().unwrap_err(), MusicError::NothingPlaying);
    assert_eq!(p.prev_take().unwrap_err(), MusicError::NoPreviousTrack);
    p.queue = VecDeque::from(vec![track("a"), track("b"), track("c")]);
    assert_eq!(p.queue_remove(0).unwrap_err(), MusicError::PositionZero);
    assert_eq!(p.queue_remove(4).unwrap_err(), MusicError::QueuePositionOutOfBounds);
    assert_eq!(p.queue_remove(2).unwrap().query, "b");
    assert_eq!(queries(&p.queue), vec!["a", "c"]);
    // Jumping skips the tracks before the target into the history.
    assert_eq!(p.queue_jump_take(2).unwrap().query, "c");
    assert!(p.queue.is_empty());
    assert_eq!(queries(&p.history), vec!["a"]);

    let old = p.install_new_track(1, track("x"), track("x").metadata, OldTrackDisposition::History);
    assert_eq!(old, None);
    assert!(p.is_current_handle(1));
    let old = p.install_new_track(2, track("y"), track("y").metadata, OldTrackDisposition::History);
    assert_eq!(old, Some(1));
    assert_eq!(queries(&p.history), vec!["a", "x"]);
    let old = p.install_new_track(3, track("z"), track("z").metadata, OldTrackDisposition::QueueFront);
    assert_eq!(old, Some(2));
    assert_eq!(queries(&p.queue), vec!["y"]);

    // Skipping stops the current track and takes the next one off the queue.
    let (handle, next_title, next) = p.skip().unwrap();
    assert_eq!(handle, 3);
    assert_eq!(next_title.as_deref(), Some("Y"));
    assert_eq!(next.map(|t| t.query), Some("y".to_string()));
    assert!(p.current.is_none());
    assert!(p.queue.is_empty());
    assert_eq!(queries(&p.history), vec!["a", "x", "z"]);
    assert_eq!(queries(&p.history_list()), vec!["z", "x", "a"]);
    assert_eq!(p.history_jump_target(1).unwrap().query, "z");
    assert_eq!(p.history_jump_target(3).unwrap().query, "a");
    assert_eq!(p.history_jump_target(4).unwrap_err(), MusicError::HistoryPositionOutOfBounds);
    assert_eq!(p.prev_take().unwrap().query, "z");
    assert_eq!(queries(&p.history), vec!["a", "x"]);

    p.install_new_track(4, track("w"), track("w").metadata, OldTrackDisposition::History);
    p.queue = VecDeque::from(vec![track("v"), track("u")]);
    assert_eq!(p.advance().map(|t| t.query), Some("v".to_string()));
    assert_eq!(queries(&p.queue), vec!["u"]);
    assert_eq!(queries(&p.history), vec!["a", "x", "w"]);
    assert_eq!(p.queue_clear(), 1);
    assert!(p.queue.is_empty());
    let snap = p.queue_snapshot();
    assert!(snap.queue.is_empty());
}

#[test]
fn history_keeps_the_most_recent_tracks() {
    let mut p = GuildPlayer::new();
    let batch: Vec<QueuedTrack> = (0..HISTORY_LIMIT + 5).map(|i| track(&format!("t{i}"))).collect();
    p.push_history_batch(batch);
    assert_eq!(p.history.len(), HISTORY_LIMIT);
    assert_eq!(p.history[0].query, "t5");
    p.push_history(track("last"));
    assert_eq!(p.history.len(), HISTORY_LIMIT);
    assert_eq!(p.history[HISTORY_LIMIT - 1].query, "last");
}

#[test]
fn stop_empties_queue_and_records_current() {
    let mut p = GuildPlayer::new();
    p.install_new_track(9, track("now"), track("now").metadata, OldTrackDisposition::History);
    p.queue = VecDeque::from(vec![track("later")]);
    assert_eq!(p.stop(), Some(9));
    assert!(p.queue.is_empty());
    assert!(p.current.is_none());
    assert_eq!(queries(&p.history), vec!["now"]);
}

#[test]
fn shuffle_keeps_the_same_tracks() {
    let mut p = GuildPlayer::new();
    let initial: Vec<QueuedTrack> = (0..20).map(|i| track(&format!("s{i}"))).collect();
    let mut moved = false;
    for _ in 0..5 {
        p.queue = VecDeque::from(initial.clone());
        assert_eq!(p.queue_shuffle(), 20);
        let mut after = queries(&p.queue);
        if after != queries(&initial) {
            moved = true;
        }
        after.sort();
        let mut before = queries(&initial);
        before.sort();
        assert_eq!(after, before);
    }
    assert!(moved);
}

#[test]
fn populate_queue_from_search_terms() {
    let mut p = GuildPlayer::new();
    p.populate_queue(&"dj".to_string(), 5, vec!["ytsearch:artist song".to_string(), "plain".to_string()]);
    assert_eq!(p.queue.len(), 2);
    assert_eq!(p.queue[0].query, "ytsearch:artist song");
    assert_eq!(p.queue[0].metadata.title.as_deref(), Some("artist song"));
    assert_eq!(p.queue[1].metadata.title.as_deref(), Some("plain"));
    assert_eq!(p.queue[1].requested_by_id, 5);
}

#[test]
fn play_timer_and_stats() {
    let mut p = GuildPlayer::new();
    p.install_new_track(1, track("a"), track("a").metadata, OldTrackDisposition::History);
    p.mark_started(1_000);
    p.mark_paused(5_000);
    p.mark_resumed(7_000);
    assert_eq!(p.wall_clock_elapsed_ms(11_000), 8_000);
    assert_eq!(p.fallback_position_ms(30_000, 11_000), 38_000);
    assert_eq!(p.finish_play_stats(11_000), 8_000);
    assert!(p.current_started_at_ms.is_none());
    assert!(p.check_seek(true, None, "+5").is_err());
    assert_eq!(p.check_seek(false, Some(100), "+5"), Err(MusicError::SeekTooQuick));
    assert_eq!(p.check_seek(false, None, "+5"), Ok(SeekMode::RelativeForward(5)));
    assert_eq!(p.check_seek(false, None, "later"), Err(MusicError::InvalidSeekInput));
    assert_eq!(MusicError::SeekLiveStream.message(), "Cannot seek in a live stream.");
}

#[test]
fn stream_drops_and_live_reconnects() {
    assert!(is_premature_drop(10_000, Some(200_000), 0));
    assert!(!is_premature_drop(196_000, Some(200_000), 0));
    assert!(!is_premature_drop(10_000, Some(200_000), 3));
    assert!(!is_premature_drop(1_000, Some(15_000), 0));
    assert!(may_reconnect_live(None));
    assert!(!may_reconnect_live(Some(4_999)));
    assert!(may_reconnect_live(Some(5_000)));
    let mut live = track("live").metadata;
    live.duration_ms = Some(0);
    assert!(is_live_stream(&live));
}

#[test]
fn youtube_and_spotify_links() {
    assert_eq!(extract_playlist_id("https://youtube.com/playlist?list=PL123&si=x"), Some("PL123"));
    assert_eq!(extract_playlist_id("PL123"), Some("PL123"));
    assert_eq!(extract_playlist_id("https://example.com/x"), None);
    assert_eq!(extract_video_id("https://www.youtube.com/watch?v=abc&t=1"), Some("abc"));
    assert_eq!(extract_video_id("https://youtu.be/xyz?si=1"), Some("xyz"));
    assert_eq!(extract_video_id("https://youtube.com/shorts/s1?x"), Some("s1"));
    assert_eq!(extract_video_id("https://www.youtube.com/watch?dev=1&v=abc"), Some("abc"));
    assert_eq!(extract_video_id("https://www.youtube.com/watch?list=p&v=abc&t=2"), Some("abc"));
    assert_eq!(watch_url("abc"), "https://www.youtube.com/watch?v=abc");
    assert!(is_youtube_playlist_candidate("https://www.youtube.com/playlist?list=1"));
    assert_eq!(next_page_token(Some(String::new())), None);
    assert_eq!(next_page_token(Some("n".to_string())), Some("n".to_string()));
    assert_eq!(
        playlist_items_url("PL", "K", Some("T")),
        "https://www.googleapis.com/youtube/v3/playlistItems?part=snippet&maxResults=50&playlistId=PL&key=K&pageToken=T"
    );
    assert_eq!(video_url("v", "K"), "https://www.googleapis.com/youtube/v3/videos?part=snippet&id=v&key=K");
    let mut urls = vec![];
    collect_page_urls(&mut urls, &vec![Some("a".to_string()), None, Some("b".to_string())]);
    assert_eq!(urls, vec!["https://www.youtube.com/watch?v=a", "https://www.youtube.com/watch?v=b"]);

    assert_eq!(spotify_playlist_id("https://open.spotify.com/playlist/37i9?si=1"), Some("37i9"));
    assert_eq!(spotify_playlist_id("https://example.com"), None);
    assert_eq!(spotify_playlist_id("spotify:playlist:37i9"), None);
    assert_eq!(search_term("Rick Astley", "Never Gonna"), "ytsearch:Rick Astley Never Gonna");
    assert_eq!(tracks_page_url("p", 100, 200), "https://api.spotify.com/v1/playlists/p/tracks?limit=100&offset=200");
    let mut terms = vec![];
    collect_search_terms(
        &mut terms,
        &vec![
            Some(SpotifyTrack { name: Some("Song".to_string()), artist_names: Some(vec![Some("A".to_string())]) }),
            Some(SpotifyTrack { name: Some(String::new()), artist_names: None }),
            None,
            Some(SpotifyTrack { name: Some("Solo".to_string()), artist_names: None }),
        ],
    );
    assert_eq!(terms, vec!["ytsearch:A Song", "ytsearch: Solo"]);
}

#[test]
fn query_urls() {
    assert_eq!(build_query_url("lofi", None, None), "ytsearch:lofi");
    assert_eq!(build_query_url("https://x.y/z", None, None), "https://x.y/z");
    assert_eq!(build_query_url("q", Some("ytsearch:s".to_string()), Some("y".to_string())), "ytsearch:s");
    assert_eq!(build_query_url("q", None, Some("y".to_string())), "y");
}

#[test]
fn web_protocol_helpers() {
    assert_eq!(commands_channel(), "music_web_commands");
    assert_eq!(events_channel(), "music_web_events");
    assert_eq!(replies_channel("abc"), "music_web_replies:abc");
    let ok = result_for("req-2".to_string(), Ok("{\"title\":\"Song\"}".to_string()));
    assert!(ok.ok);
    assert_eq!(ok.clone().into_inner(), Ok("{\"title\":\"Song\"}".to_string()));
    let failed = result_for("req-3".to_string(), Err("no voice channels".to_string()));
    assert!(!failed.ok);
    assert_eq!(failed.into_inner(), Err("no voice channels".to_string()));
    let bare = RemoteMusicResult { request_id: "r".to_string(), ok: true, data: None, error: None };
    assert_eq!(bare.into_inner(), Ok("null".to_string()));
    let lost = RemoteMusicResult { request_id: "r".to_string(), ok: false, data: None, error: None };
    assert_eq!(lost.into_inner(), Err("Unknown music command failure".to_string()));
    assert_eq!(
        ack_for(Some("abc".to_string()), Ok("{}".to_string())),
        ServerMessage::Ack { request_id: Some("abc".to_string()), ok: true, error: None, data: Some("{}".to_string()) }
    );
    match invalid_message_ack("eof") {
        ServerMessage::Ack { request_id, ok, error, data } => {
            assert!(request_id.is_none() && !ok && data.is_none());
            assert_eq!(error.as_deref(), Some("Invalid message: eof"));
        }
    }
}

#[test]
fn dashboard_play_requests() {
    let channels = vec![(1, MusicChannelKind::Other), (2, MusicChannelKind::Voice), (3, MusicChannelKind::Voice)];
    assert_eq!(resolve_voice_channel(&channels), Ok(2));
    assert_eq!(
        resolve_voice_channel(&vec![(1, MusicChannelKind::Other)]),
        Err("No voice channel found in this server. Create one first.".to_string())
    );
    assert_eq!(web_requester(Some(42), Some("ann".to_string())), ("ann".to_string(), 42));
    assert_eq!(web_requester(Some(42), None), ("Web".to_string(), 42));
    assert_eq!(web_requester(None, Some("x".to_string())), ("Web".to_string(), 0));
    assert!(needs_voice_channel(&MusicAction::Prev));
    assert!(needs_voice_channel(&MusicAction::Play { query: "q".to_string(), requested_by_id: None }));
    assert!(!needs_voice_channel(&MusicAction::Seek { input: "+30".to_string() }));
    let single = play_reply(PlayOutcome::Single(StartedTrackInfo { title: "T".to_string(), thumbnail: None }));
    assert_eq!((single.status, single.title.as_str(), single.playlist_count), ("playing", "T", None));
    let list = play_reply(PlayOutcome::Playlist {
        first_track: StartedTrackInfo { title: "F".to_string(), thumbnail: Some("u".to_string()) },
        count: 12,
    });
    assert_eq!(list.playlist_count, Some(12));
    assert_eq!(list.thumbnail.as_deref(), Some("u"));
    let q = WsQuery { guild_id: 1, user_id: Some("2".to_string()), expires: Some(3), sig: Some("s".to_string()) };
    assert_eq!(q.ticket_parts(), Some(("2", 3, "s")));
    let missing = WsQuery { guild_id: 1, user_id: None, expires: Some(3), sig: Some("s".to_string()) };
    assert_eq!(missing.ticket_parts(), None);
}

#[test]
fn live_input_and_resolver() {
    let input = FfmpegLiveInput::new("never gonna".to_string());
    assert_eq!(input.query(), "never gonna");
    let args = resolver_args("q");
    assert_eq!(args, vec!["-g", "-f", "ba[abr>0][vcodec=none]/best", "--no-playlist", "--no-warnings", "q"]);
    let dec = decoder_args("http://s");
    assert_eq!(dec.len(), 16);
    assert_eq!(dec[5], "http://s");
    assert_eq!(dec[12], "2");
    assert_eq!(dec[14], "48000");
    assert_eq!(stream_url_from_output("\n  https://a/b  \r\nhttps://c\n", "q"), Ok("https://a/b".to_string()));
    assert_eq!(
        stream_url_from_output(" \n\n", "q"),
        Err("'yt-dlp' returned no stream URL for 'q'".to_string())
    );
    assert_eq!(resolver_failure_message("  boom \n"), "'yt-dlp' failed: boom");
}

#[test]
fn playback_stats_events() {
    let meta = TrackMeta { title: None, artist: Some("A".to_string()), duration_ms: Some(5), thumbnail: None, source_url: None };
    match track_start_event(u64::MAX, 2, "h".to_string(), &meta) {
        StatsEvent::Start { guild_id, user_id, title, artist, duration_ms, .. } => {
            assert_eq!(guild_id, -1);
            assert_eq!(user_id, 2);
            assert_eq!(title, "Unknown");
            assert_eq!(artist, "A");
            assert_eq!(duration_ms, Some(5));
        }
        StatsEvent::End { .. } => panic!("expected a start event"),
    }
    assert_eq!(track_end_event("h".to_string(), 9), StatsEvent::End { handle_uuid: "h".to_string(), listened_ms: 9 });
    assert!(should_flush(64));
    assert!(!should_flush(63));
}

#[test]
fn started_track_display() {
    let mut meta = track("a").metadata;
    meta.thumbnail = Some("img".to_string());
    let info = mod_oud::music::state::started_info(&meta);
    assert_eq!(info.title, "A");
    assert_eq!(info.thumbnail.as_deref(), Some("img"));
    meta.title = None;
    assert_eq!(mod_oud::music::state::started_info(&meta).title, "untitled");
}

#[test]
fn stats_buffer_requeues_failed_batches() {
    let mut buffer = mod_oud::music::stats::StatsBuffer::new();
    for i in 0..63 {
        assert!(!buffer.push(track_end_event(format!("h{i}"), i)));
    }
    assert!(buffer.push(track_end_event("last".to_string(), 0)));
    let batch = buffer.take_batch();
    assert_eq!(batch.len(), 64);
    assert_eq!(buffer.len(), 0);
    buffer.requeue(batch);
    assert_eq!(buffer.len(), 64);
}

#[test]
fn track_end_decisions() {
    assert_eq!(track_end_step(false, true, None), TrackEndStep::Ignore);
    assert_eq!(track_end_step(true, true, None), TrackEndStep::ReconnectLive);
    assert_eq!(track_end_step(true, true, Some(1_000)), TrackEndStep::CheckDrop);
    assert_eq!(track_end_step(true, false, None), TrackEndStep::CheckDrop);
    assert_eq!(
        drop_recovery(30_000, Some(200_000), 1, true),
        DropRecovery::Resume { at_ms: 30_000, retry_count: 2 }
    );
    assert_eq!(drop_recovery(30_000, Some(200_000), 3, true), DropRecovery::Advance);
    assert_eq!(drop_recovery(30_000, Some(200_000), 0, false), DropRecovery::Advance);
    assert_eq!(drop_recovery(198_000, Some(200_000), 0, true), DropRecovery::Advance);
    assert_eq!(resume_seek_target(true, true, 30_000), Some(30_000));
    assert_eq!(resume_seek_target(true, true, 0), None);
    assert_eq!(resume_seek_target(false, true, 30_000), None);
    assert_eq!(resume_seek_target(true, false, 30_000), None);
    assert_eq!(split_playlist(vec![]), Err(MusicError::EmptyPlaylist));
    let (first, rest, count) = split_playlist(vec!["a".to_string(), "b".to_string(), "c".to_string()]).unwrap();
    assert_eq!((first.as_str(), rest, count), ("a", vec!["b".to_string(), "c".to_string()], 3));
    assert!(queues_behind_current(Some(1)));
    assert!(!queues_behind_current(None));
    assert_eq!(voice_target(true, Some(5)), Ok(None));
    assert_eq!(voice_target(false, Some(5)), Ok(Some(5)));
    assert_eq!(voice_target(false, None), Err(MusicError::NoVoiceChannel));
    assert_eq!(
        MusicError::NoVoiceChannel.message(),
        "Not connected to a voice channel and no channel provided"
    );
    let mut live = GuildPlayer::new();
    let mut meta = track("radio").metadata;
    meta.duration_ms = None;
    live.install_new_track(1, track("radio"), meta, OldTrackDisposition::History);
    assert_eq!(live.check_seek(false, None, "+5"), Err(MusicError::SeekLiveStream));
    assert_eq!(GuildPlayer::new().check_seek(false, None, "+5"), Err(MusicError::NothingPlaying));
}

fn listed(q: &str, url: Option<&str>, ms: Option<u64>) -> QueuedTrack {
    let mut t = track(q);
    t.metadata.source_url = url.map(str::to_string);
    t.metadata.duration_ms = ms;
    t
}

#[test]
fn queue_and_history_pages() {
    assert_eq!(page_count(0), 1);
    assert_eq!(page_count(10), 1);
    assert_eq!(page_count(11), 2);
    let tracks: Vec<QueuedTrack> = (1..=12)
        .map(|i| listed(&format!("t{i}"), if i == 1 { Some("https://x/1") } else if i == 2 { Some("#") } else { None }, if i == 1 { Some(225_500) } else { None }))
        .collect();
    let snapshot = QueueSnapshot { current_meta: Some(listed("now", None, Some(4_530_000)).metadata), queue: tracks.clone() };
    let (d, f) = queue_page(&snapshot, 0);
    assert!(d.starts_with("**Now Playing:**\n**NOW** | `01:15:30`\n\n**Up Next (Page 1/2):**\n1. [T1](https://x/1) | `03:45` (Requested by **user**)\n2. **T2** (Requested by **user**)\n"));
    assert_eq!(d.lines().count(), 4 + 10);
    assert_eq!(f, "Total queued tracks: 12 | Page 1/2");
    let (d2, f2) = queue_page(&snapshot, 1);
    assert!(d2.ends_with("11. **T11** (Requested by **user**)\n12. **T12** (Requested by **user**)\n"));
    assert_eq!(f2, "Total queued tracks: 12 | Page 2/2");
    let empty = QueueSnapshot { current_meta: None, queue: vec![] };
    assert!(queue_list_is_empty(&empty));
    assert_eq!(queue_page(&empty, 0).0, "**Up Next:**\nNo tracks in queue.");
    let (h, hf) = history_page(&tracks[..2].to_vec(), 0);
    assert_eq!(h, "1. [T1](https://x/1) | `03:45`\n2. **T2**\n");
    assert_eq!(hf, "Most recent first | Page 1/1");
}

#[test]
fn command_replies() {
    let info = StartedTrackInfo { title: "Song".to_string(), thumbnail: None };
    assert_eq!(play_title(&PlayOutcome::Single(info.clone())), "Playing Song");
    assert_eq!(
        play_title(&PlayOutcome::Playlist { first_track: info.clone(), count: 5 }),
        "Playing Song (and queued 4 remaining playlist tracks)"
    );
    assert_eq!(add_title(&QueueAddOutcome::Queued(info.clone())), "Queued Song");
    assert_eq!(add_title(&QueueAddOutcome::Played(info.clone())), "Playing Song");
    assert_eq!(
        add_title(&QueueAddOutcome::PlaylistQueued { count: 7, first_track: info.clone() }),
        "Queued 7 tracks from Spotify Playlist!"
    );
    assert_eq!(skip_reply(Some("Next")), "Skipped. Now playing **Next**.");
    assert_eq!(skip_reply(None), "Skipped. Queue is empty, nothing left to play.");
    assert_eq!(clear_reply(0), "The queue is already empty.");
    assert_eq!(clear_reply(3), "Cleared **3** tracks from the queue.");
    assert_eq!(shuffle_reply(0), "The queue is empty, there's nothing to shuffle.");
    assert_eq!(shuffle_reply(2), "Shuffled **2** tracks in the queue.");
    let mut untitled = track("x");
    untitled.metadata.title = None;
    assert_eq!(removed_reply(&untitled), "Removed **untitled** from the queue.");
    assert_eq!(jumped_reply(&info), "Jumped to **Song**.");
    assert_eq!(replay_reply(&info), "Replaying **Song**.");
    assert_eq!(previous_reply(&info), "Playing previous track: **Song**.");
    assert_eq!(restarted_reply(&info), "Restarted **Song** from the beginning.");
    assert_eq!(seeked_reply(90), "Seeked current track to 01:30.");
    assert_eq!(moved_reply("Lounge"), "Moved the music bot to **Lounge**.");
}

#[test]
fn waiting_for_command_replies() {
    assert_eq!(COMMAND_TIMEOUT_SECS, 30);
    let answered = result_for("r".to_string(), Ok("{}".to_string()));
    assert_eq!(command_outcome(ReplyWait::Answered(answered)), Ok("{}".to_string()));
    assert_eq!(command_outcome(ReplyWait::Closed), Err("Music command reply channel closed".to_string()));
    assert_eq!(command_outcome(ReplyWait::TimedOut), Err("Command timed out".to_string()));
}

#[test]
fn spotify_paging_stops_on_empty_or_last_page() {
    assert_eq!(SPOTIFY_PAGE_LIMIT, 100);
    assert_eq!(next_page_offset(0, 100, true), Some(100));
    assert_eq!(next_page_offset(200, 3, true), Some(300));
    assert_eq!(next_page_offset(200, 3, false), None);
    assert_eq!(next_page_offset(200, 0, true), None);
    assert_eq!(next_page_offset(u64::MAX - 50, 100, true), None);
}

#[test]
fn spotify_playlist_without_terms_resolves_to_none() {
    assert_eq!(playlist_terms_result(Vec::new()), None);
    let terms = vec!["ytsearch:a b".to_string()];
    assert_eq!(playlist_terms_result(terms.clone()), Some(terms));
}

#[test]
fn command_bus_failures_name_the_step() {
    assert_eq!(publish_failure("connection refused"), "Failed to publish music command: connection refused");
    assert_eq!(serialize_failure("bad key"), "Failed to serialize music command: bad key");
}

#[test]
fn dashboard_actions_become_player_commands() {
    assert_eq!(player_command(MusicAction::Pause, None, None), Some(PlayerCommand::Pause));
    assert_eq!(player_command(MusicAction::Shuffle, None, None), Some(PlayerCommand::QueueShuffle));
    assert_eq!(player_command(MusicAction::ClearQueue, None, None), Some(PlayerCommand::QueueClear));
    assert_eq!(
        player_command(MusicAction::GoToChannel { channel_id: 5 }, None, None),
        Some(PlayerCommand::GoToChannel { vc_channel_id: 5 })
    );
    assert_eq!(
        player_command(MusicAction::Seek { input: "1:30".to_string() }, None, None),
        Some(PlayerCommand::Seek { input: "1:30".to_string() })
    );
    assert_eq!(player_command(MusicAction::Prev, None, None), None);
    assert_eq!(player_command(MusicAction::Prev, Some(9), None), Some(PlayerCommand::Prev { vc_channel_id: 9 }));
    let play = MusicAction::Play { query: "song".to_string(), requested_by_id: Some(42) };
    assert_eq!(player_command(play.clone(), None, Some("amy".to_string())), None);
    assert_eq!(
        player_command(play.clone(), Some(9), Some("amy".to_string())),
        Some(PlayerCommand::WebPlay {
            query: "song".to_string(),
            vc_channel_id: 9,
            requested_by_name: "amy".to_string(),
            requested_by_id: 42
        })
    );
    assert_eq!(
        player_command(play, Some(9), None),
        Some(PlayerCommand::WebPlay {
            query: "song".to_string(),
            vc_channel_id: 9,
            requested_by_name: "Web".to_string(),
            requested_by_id: 42
        })
    );
    let anon = MusicAction::Play { query: "song".to_string(), requested_by_id: None };
    assert_eq!(
        player_command(anon, Some(9), Some("amy".to_string())),
        Some(PlayerCommand::WebPlay {
            query: "song".to_string(),
            vc_channel_id: 9,
            requested_by_name: "Web".to_string(),
            requested_by_id: 0
        })
    );
}

#[test]
fn replies_reach_only_their_own_request() {
    let mut pending: PendingReplies<u32> = PendingReplies::new();
    pending.register("a".to_string(), 1);
    pending.register("b".to_string(), 2);
    assert_eq!(pending.take("c"), None);
    assert_eq!(pending.take("b"), Some(2));
    assert_eq!(pending.take("b"), None);
    pending.register("a".to_string(), 3);
    assert_eq!(pending.take("a"), Some(3));
    assert_eq!(pending.take("a"), None);
}

#[test]
fn trimming_drops_unicode_whitespace_at_both_ends() {
    assert_eq!(mod_oud::text::trim_str("  \t a b \n"), "a b");
    assert_eq!(mod_oud::text::trim_str("\u{3000}x\u{a0}"), "x");
    assert_eq!(mod_oud::text::trim_str("   "), "");
    assert_eq!(mod_oud::text::trim_str(""), "");
    assert_eq!(mod_oud::text::trim_str("a"), "a");
}
