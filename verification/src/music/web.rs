//! Routing dashboard music commands to the bot instance that owns the guild.

use crate::music::state::PlayOutcome;
use crate::music::web_command::MusicAction;
use vstd::prelude::*;

verus! {

/// Discord assigns a guild to shard `(guild_id >> 22) % total_shards`; with no
/// shards nobody owns it.
pub open spec fn spec_owns_guild(guild_id: u64, shard_index: u32, total_shards: u32) -> bool {
    total_shards != 0 && (guild_id >> 22u64) % (total_shards as u64) == shard_index as u64
}

/// Returns true when Discord routes `guild_id`'s gateway events to this shard.
pub fn owns_guild(guild_id: u64, shard_index: u32, total_shards: u32) -> (r: bool)
    ensures
        r == spec_owns_guild(guild_id, shard_index, total_shards),
{
    if total_shards == 0 {
        return false;
    }
    ((guild_id >> 22u64) % (total_shards as u64)) == shard_index as u64
}

/// Every guild is owned by exactly one shard of a non-empty sharding plan.
pub proof fn law_exactly_one_shard_owns(guild_id: u64, total_shards: u32)
    requires
        total_shards > 0,
    ensures
        spec_owns_guild(guild_id, ((guild_id >> 22u64) % (total_shards as u64)) as u32, total_shards),
        ((guild_id >> 22u64) % (total_shards as u64)) < total_shards,
        forall|i: u32, j: u32|
            spec_owns_guild(guild_id, i, total_shards) && spec_owns_guild(guild_id, j, total_shards)
                ==> i == j,
{
}

/// The kinds of guild channel the music feature tells apart.
#[derive(Clone, Copy, Debug, PartialEq, Eq, Structural)]
pub enum MusicChannelKind {
    Voice,
    Other,
}

/// Why no voice channel could be chosen.
pub open spec fn no_voice_channel_message() -> Seq<char> {
    "No voice channel found in this server. Create one first."@
}

/// Picks the first voice channel of the guild, for joining when the bot is not
/// connected yet.
pub fn resolve_voice_channel(channels: &Vec<(u64, MusicChannelKind)>) -> (r: Result<u64, String>)
    ensures
        match r {
            Ok(id) => exists|k: int|
                0 <= k < channels@.len() && channels@[k].0 == id && channels@[k].1
                    == MusicChannelKind::Voice && forall|j: int|
                    0 <= j < k ==> channels@[j].1 != MusicChannelKind::Voice,
            Err(e) => e@ == no_voice_channel_message() && forall|j: int|
                0 <= j < channels@.len() ==> channels@[j].1 != MusicChannelKind::Voice,
        },
{
    let mut i: usize = 0;
    while i < channels.len()
        invariant
            i <= channels@.len(),
            forall|j: int| 0 <= j < i ==> channels@[j].1 != MusicChannelKind::Voice,
        decreases channels@.len() - i,
    {
        if channels[i].1 == MusicChannelKind::Voice {
            return Ok(channels[i].0);
        }
        i = i + 1;
    }
    Err(String::from_str("No voice channel found in this server. Create one first."))
}

/// Who a dashboard play request is attributed to: the fetched name of the
/// requesting user (or `Web` when it could not be fetched) and their id; `Web`
/// and id 0 when no user is given.
pub fn web_requester(requested_by_id: Option<u64>, fetched_name: Option<String>) -> (r: (String, u64))
    ensures
        match requested_by_id {
            Some(id) => r.1 == id && r.0@ == match fetched_name {
                Some(n) => n@,
                None => "Web"@,
            },
            None => r.1 == 0 && r.0@ == "Web"@,
        },
{
    match requested_by_id {
        Some(id) => {
            let name = match fetched_name {
                Some(n) => n,
                None => String::from_str("Web"),
            };
            (name, id)
        },
        None => (String::from_str("Web"), 0),
    }
}

/// Whether a dashboard action first needs a voice channel to join: playing,
/// and going back to the previous track.
pub fn needs_voice_channel(action: &MusicAction) -> (r: bool)
    ensures
        r == (action is Play || action is Prev),
{
    match action {
        MusicAction::Play { .. } | MusicAction::Prev => true,
        _ => false,
    }
}

/// The guild player command a dashboard action becomes.
#[derive(Clone, Debug, PartialEq, Eq)]
pub enum PlayerCommand {
    Pause,
    Resume,
    Stop,
    Skip,
    /// Go back to the previous track, joining `vc_channel_id` if needed.
    Prev { vc_channel_id: u64 },
    Restart,
    QueueShuffle,
    QueueClear,
    NowPlaying,
    /// Move to the given voice channel.
    GoToChannel { vc_channel_id: u64 },
    /// Seek to the position the input names.
    Seek { input: String },
    /// Play a query in `vc_channel_id` on behalf of the requester.
    WebPlay { query: String, vc_channel_id: u64, requested_by_name: String, requested_by_id: u64 },
}

/// Turns a dashboard action into the player command sent to the guild's
/// player. `vc_channel_id` is the voice channel resolved for the actions that
/// need one and `fetched_name` the name fetched for a play request's user;
/// `None` when the action needs a voice channel and none was resolved.
pub fn player_command(action: MusicAction, vc_channel_id: Option<u64>, fetched_name: Option<String>) -> (r:
    Option<PlayerCommand>)
    ensures
        match action {
            MusicAction::Pause => r == Some(PlayerCommand::Pause),
            MusicAction::Resume => r == Some(PlayerCommand::Resume),
            MusicAction::Stop => r == Some(PlayerCommand::Stop),
            MusicAction::Skip => r == Some(PlayerCommand::Skip),
            MusicAction::Restart => r == Some(PlayerCommand::Restart),
            MusicAction::Shuffle => r == Some(PlayerCommand::QueueShuffle),
            MusicAction::ClearQueue => r == Some(PlayerCommand::QueueClear),
            MusicAction::NowPlaying => r == Some(PlayerCommand::NowPlaying),
            MusicAction::GoToChannel { channel_id } => r == Some(
                PlayerCommand::GoToChannel { vc_channel_id: channel_id },
            ),
            MusicAction::Seek { input } => r == Some(PlayerCommand::Seek { input }),
            MusicAction::Prev => match vc_channel_id {
                Some(vc) => r == Some(PlayerCommand::Prev { vc_channel_id: vc }),
                None => r is None,
            },
            MusicAction::Play { query, requested_by_id } => match vc_channel_id {
                Some(vc) => r matches Some(PlayerCommand::WebPlay { query: q, vc_channel_id: c, requested_by_name: n, requested_by_id: i })
                    && q == query && c == vc && match requested_by_id {
                        Some(id) => i == id && n@ == match fetched_name {
                            Some(f) => f@,
                            None => "Web"@,
                        },
                        None => i == 0 && n@ == "Web"@,
                    },
                None => r is None,
            },
        },
{
    match action {
        MusicAction::Pause => Some(PlayerCommand::Pause),
        MusicAction::Resume => Some(PlayerCommand::Resume),
        MusicAction::Stop => Some(PlayerCommand::Stop),
        MusicAction::Skip => Some(PlayerCommand::Skip),
        MusicAction::Restart => Some(PlayerCommand::Restart),
        MusicAction::Shuffle => Some(PlayerCommand::QueueShuffle),
        MusicAction::ClearQueue => Some(PlayerCommand::QueueClear),
        MusicAction::NowPlaying => Some(PlayerCommand::NowPlaying),
        MusicAction::GoToChannel { channel_id } => Some(PlayerCommand::GoToChannel { vc_channel_id: channel_id }),
        MusicAction::Seek { input } => Some(PlayerCommand::Seek { input }),
        MusicAction::Prev => match vc_channel_id {
            Some(vc) => Some(PlayerCommand::Prev { vc_channel_id: vc }),
            None => None,
        },
        MusicAction::Play { query, requested_by_id } => match vc_channel_id {
            Some(vc) => {
                let (requested_by_name, requested_by_id) = web_requester(requested_by_id, fetched_name);
                Some(PlayerCommand::WebPlay { query, vc_channel_id: vc, requested_by_name, requested_by_id })
            },
            None => None,
        },
    }
}

/// The data a dashboard play request is answered with: status `playing`, the
/// started track's title and thumbnail, and for a playlist its track count.
#[derive(Debug, Clone)]
pub struct PlayReply {
    pub status: &'static str,
    pub title: String,
    pub thumbnail: Option<String>,
    pub playlist_count: Option<usize>,
}

/// Builds the answer to a dashboard play request.
pub fn play_reply(outcome: PlayOutcome) -> (r: PlayReply)
    ensures
        r.status@ == "playing"@,
        match outcome {
            PlayOutcome::Single(info) => r.title == info.title && r.thumbnail == info.thumbnail
                && r.playlist_count is None,
            PlayOutcome::Playlist { first_track, count } => r.title == first_track.title
                && r.thumbnail == first_track.thumbnail && r.playlist_count == Some(count),
        },
{
    match outcome {
        PlayOutcome::Single(info) => PlayReply {
            status: "playing",
            title: info.title,
            thumbnail: info.thumbnail,
            playlist_count: None,
        },
        PlayOutcome::Playlist { first_track, count } => PlayReply {
            status: "playing",
            title: first_track.title,
            thumbnail: first_track.thumbnail,
            playlist_count: Some(count),
        },
    }
}

/// The query of a music control WebSocket: the guild and the signed ticket
/// (user, expiry in unix seconds, signature).
#[derive(Debug, Clone)]
pub struct WsQuery {
    pub guild_id: u64,
    pub user_id: Option<String>,
    pub expires: Option<u64>,
    pub sig: Option<String>,
}

impl WsQuery {
    /// The ticket's user, expiry and signature, when all three are present; a
    /// connection without them is refused as unauthorised.
    pub fn ticket_parts(&self) -> (r: Option<(&str, u64, &str)>)
        ensures
            match r {
                Some((u, e, s)) => self.user_id matches Some(qu) && qu@ == u@ && self.expires == Some(e)
                    && (self.sig matches Some(qs) && qs@ == s@),
                None => self.user_id is None || self.expires is None || self.sig is None,
            },
    {
        match (&self.user_id, self.expires, &self.sig) {
            (Some(u), Some(e), Some(s)) => Some((u.as_str(), e, s.as_str())),
            _ => None,
        }
    }
}

} // verus!
