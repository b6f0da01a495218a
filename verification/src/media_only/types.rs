//! Media-only channel configuration.

use crate::text::{decimal, push_decimal, starts_with_seq, starts_with_str};
use vstd::prelude::*;

verus! {

/// A kind of content a media-only channel may allow.
#[derive(Debug, Clone, Copy, PartialEq, Eq, Structural)]
pub enum MediaType {
    Image,
    Video,
    Audio,
    Gif,
    Link,
    EmbeddedText,
}

/// The media type of an attachment's MIME type, if it is one the channel rules
/// know (GIFs are told apart from other images).
pub open spec fn spec_from_mime(mime: Seq<char>) -> Option<MediaType> {
    if starts_with_seq(mime, "image/gif"@) {
        Some(MediaType::Gif)
    } else if starts_with_seq(mime, "image/"@) {
        Some(MediaType::Image)
    } else if starts_with_seq(mime, "video/"@) {
        Some(MediaType::Video)
    } else if starts_with_seq(mime, "audio/"@) {
        Some(MediaType::Audio)
    } else {
        None
    }
}

impl MediaType {
    /// Classifies a MIME type.
    pub fn from_mime(mime: &str) -> (r: Option<MediaType>)
        ensures
            r == spec_from_mime(mime@),
    {
        if starts_with_str(mime, "image/gif") {
            Some(MediaType::Gif)
        } else if starts_with_str(mime, "image/") {
            Some(MediaType::Image)
        } else if starts_with_str(mime, "video/") {
            Some(MediaType::Video)
        } else if starts_with_str(mime, "audio/") {
            Some(MediaType::Audio)
        } else {
            None
        }
    }
}

/// The set of media types a channel allows, one flag per type.
#[derive(Debug, Clone, Copy, PartialEq, Eq, Structural)]
pub struct AllowedMedia {
    pub image: bool,
    pub video: bool,
    pub audio: bool,
    pub gif: bool,
    pub link: bool,
    pub embedded_text: bool,
}

impl AllowedMedia {
    /// Whether the set holds `m`.
    pub open spec fn allows(self, m: MediaType) -> bool {
        match m {
            MediaType::Image => self.image,
            MediaType::Video => self.video,
            MediaType::Audio => self.audio,
            MediaType::Gif => self.gif,
            MediaType::Link => self.link,
            MediaType::EmbeddedText => self.embedded_text,
        }
    }

    /// Membership test.
    pub fn contains(&self, m: MediaType) -> (r: bool)
        ensures
            r == self.allows(m),
    {
        match m {
            MediaType::Image => self.image,
            MediaType::Video => self.video,
            MediaType::Audio => self.audio,
            MediaType::Gif => self.gif,
            MediaType::Link => self.link,
            MediaType::EmbeddedText => self.embedded_text,
        }
    }
}

/// A channel's media-only rule.
#[derive(Debug, Clone)]
pub struct MediaOnlyChannel {
    pub channel_id: u64,
    pub guild_id: u64,
    pub enabled: bool,
    pub allowed_media: AllowedMedia,
    pub auto_thread: bool,
    pub thread_name_template: Option<String>,
    pub delete_warning_after_secs: i16,
    pub exempt_roles: Option<Vec<u64>>,
}

impl Default for MediaOnlyChannel {
    /// The defaults: disabled; images, videos, GIFs, links and text allowed,
    /// audio not; no auto threads, threads named `Discussion - {user}`;
    /// warnings removed after five seconds; no exempt roles.
    fn default() -> (r: Self)
        ensures
            r.channel_id == 0,
            r.guild_id == 0,
            !r.enabled,
            r.allowed_media == (AllowedMedia {
                image: true,
                video: true,
                audio: false,
                gif: true,
                link: true,
                embedded_text: true,
            }),
            !r.auto_thread,
            r.thread_name_template matches Some(t) && t@ == "Discussion - {user}"@,
            r.delete_warning_after_secs == 5,
            r.exempt_roles is None,
    {
        MediaOnlyChannel {
            channel_id: 0,
            guild_id: 0,
            enabled: false,
            allowed_media: AllowedMedia {
                image: true,
                video: true,
                audio: false,
                gif: true,
                link: true,
                embedded_text: true,
            },
            auto_thread: false,
            thread_name_template: Some(String::from_str("Discussion - {user}")),
            delete_warning_after_secs: 5,
            exempt_roles: None,
        }
    }
}

impl MediaOnlyChannel {
    /// The exempt roles, none when unset.
    pub fn exempt_role_ids(&self) -> (r: Vec<u64>)
        ensures
            r@ == match self.exempt_roles {
                Some(v) => v@,
                None => Seq::empty(),
            },
    {
        match &self.exempt_roles {
            Some(v) => v.clone(),
            None => Vec::new(),
        }
    }
}

/// A row of the `media_only_channels` table.
#[derive(Debug, Clone)]
pub struct MediaOnlyChannelRow {
    pub channel_id: i64,
    pub guild_id: i64,
    pub enabled: bool,
    pub allow_images: bool,
    pub allow_videos: bool,
    pub allow_audio: bool,
    pub allow_gif: bool,
    pub allow_links: bool,
    pub allow_embedded_text: bool,
    pub auto_thread: bool,
    pub thread_name_template: Option<String>,
    pub delete_warning_after_secs: i16,
    pub exempt_roles: Option<Vec<i64>>,
}

/// `row` is the stored form of `c`: the flags of its allowed media, its ids
/// reinterpreted as signed.
pub open spec fn stores(c: MediaOnlyChannel, row: MediaOnlyChannelRow) -> bool {
    &&& row.channel_id == c.channel_id as i64
    &&& row.guild_id == c.guild_id as i64
    &&& row.enabled == c.enabled
    &&& row.allow_images == c.allowed_media.image
    &&& row.allow_videos == c.allowed_media.video
    &&& row.allow_audio == c.allowed_media.audio
    &&& row.allow_gif == c.allowed_media.gif
    &&& row.allow_links == c.allowed_media.link
    &&& row.allow_embedded_text == c.allowed_media.embedded_text
    &&& row.auto_thread == c.auto_thread
    &&& row.thread_name_template == c.thread_name_template
    &&& row.delete_warning_after_secs == c.delete_warning_after_secs
    &&& match c.exempt_roles {
        Some(v) => row.exempt_roles matches Some(w) && w@.len() == v@.len() && forall|i: int|
            0 <= i < v@.len() ==> w@[i] == v@[i] as i64,
        None => row.exempt_roles is None,
    }
}

/// `c` is the rule read from `row`: its allowed media from the flags, its ids
/// reinterpreted as unsigned.
pub open spec fn reads(row: MediaOnlyChannelRow, c: MediaOnlyChannel) -> bool {
    &&& c.channel_id == row.channel_id as u64
    &&& c.guild_id == row.guild_id as u64
    &&& c.enabled == row.enabled
    &&& c.allowed_media == (AllowedMedia {
        image: row.allow_images,
        video: row.allow_videos,
        audio: row.allow_audio,
        gif: row.allow_gif,
        link: row.allow_links,
        embedded_text: row.allow_embedded_text,
    })
    &&& c.auto_thread == row.auto_thread
    &&& c.thread_name_template == row.thread_name_template
    &&& c.delete_warning_after_secs == row.delete_warning_after_secs
    &&& match row.exempt_roles {
        Some(v) => c.exempt_roles matches Some(w) && w@.len() == v@.len() && forall|i: int|
            0 <= i < v@.len() ==> w@[i] == v@[i] as u64,
        None => c.exempt_roles is None,
    }
}

/// Two rules say the same thing.
pub open spec fn same_rule(a: MediaOnlyChannel, b: MediaOnlyChannel) -> bool {
    &&& a.channel_id == b.channel_id
    &&& a.guild_id == b.guild_id
    &&& a.enabled == b.enabled
    &&& a.allowed_media == b.allowed_media
    &&& a.auto_thread == b.auto_thread
    &&& a.thread_name_template == b.thread_name_template
    &&& a.delete_warning_after_secs == b.delete_warning_after_secs
    &&& match a.exempt_roles {
        Some(v) => b.exempt_roles matches Some(w) && w@ == v@,
        None => b.exempt_roles is None,
    }
}

/// Reinterprets stored signed ids as Discord ids.
fn ids_from_db(v: &Vec<i64>) -> (r: Vec<u64>)
    ensures
        r@.len() == v@.len(),
        forall|i: int| 0 <= i < v@.len() ==> r@[i] == v@[i] as u64,
{
    let mut r: Vec<u64> = Vec::new();
    let mut i: usize = 0;
    while i < v.len()
        invariant
            i <= v@.len(),
            r@.len() == i,
            forall|j: int| 0 <= j < i ==> r@[j] == v@[j] as u64,
        decreases v@.len() - i,
    {
        r.push(v[i] as u64);
        i = i + 1;
    }
    r
}

/// Reinterprets Discord ids as the signed ids the database stores.
fn ids_to_db(v: &Vec<u64>) -> (r: Vec<i64>)
    ensures
        r@.len() == v@.len(),
        forall|i: int| 0 <= i < v@.len() ==> r@[i] == v@[i] as i64,
{
    let mut r: Vec<i64> = Vec::new();
    let mut i: usize = 0;
    while i < v.len()
        invariant
            i <= v@.len(),
            r@.len() == i,
            forall|j: int| 0 <= j < i ==> r@[j] == v@[j] as i64,
        decreases v@.len() - i,
    {
        r.push(v[i] as i64);
        i = i + 1;
    }
    r
}

impl MediaOnlyChannel {
    /// Reads a stored row: the allowed media from its flags, ids reinterpreted
    /// as unsigned.
    pub fn from_row(row: MediaOnlyChannelRow) -> (r: MediaOnlyChannel)
        ensures
            reads(row, r),
    {
        let exempt_roles = match &row.exempt_roles {
            Some(v) => Some(ids_from_db(v)),
            None => None,
        };
        MediaOnlyChannel {
            channel_id: row.channel_id as u64,
            guild_id: row.guild_id as u64,
            enabled: row.enabled,
            allowed_media: AllowedMedia {
                image: row.allow_images,
                video: row.allow_videos,
                audio: row.allow_audio,
                gif: row.allow_gif,
                link: row.allow_links,
                embedded_text: row.allow_embedded_text,
            },
            auto_thread: row.auto_thread,
            thread_name_template: row.thread_name_template,
            delete_warning_after_secs: row.delete_warning_after_secs,
            exempt_roles,
        }
    }

    /// The row that stores this rule.
    pub fn to_row(&self) -> (r: MediaOnlyChannelRow)
        ensures
            stores(*self, r),
    {
        let exempt_roles = match &self.exempt_roles {
            Some(v) => Some(ids_to_db(v)),
            None => None,
        };
        let thread_name_template = match &self.thread_name_template {
            Some(t) => Some(t.clone()),
            None => None,
        };
        MediaOnlyChannelRow {
            channel_id: self.channel_id as i64,
            guild_id: self.guild_id as i64,
            enabled: self.enabled,
            allow_images: self.allowed_media.image,
            allow_videos: self.allowed_media.video,
            allow_audio: self.allowed_media.audio,
            allow_gif: self.allowed_media.gif,
            allow_links: self.allowed_media.link,
            allow_embedded_text: self.allowed_media.embedded_text,
            auto_thread: self.auto_thread,
            thread_name_template,
            delete_warning_after_secs: self.delete_warning_after_secs,
            exempt_roles,
        }
    }
}

/// Storing a rule and reading it back gives the same rule.
pub proof fn law_row_round_trip(c: MediaOnlyChannel, row: MediaOnlyChannelRow, back: MediaOnlyChannel)
    requires
        stores(c, row),
        reads(row, back),
    ensures
        same_rule(c, back),
{
    let cid: u64 = c.channel_id;
    let gid: u64 = c.guild_id;
    assert(cid as i64 as u64 == cid) by (bit_vector);
    assert(gid as i64 as u64 == gid) by (bit_vector);
    match c.exempt_roles {
        Some(v) => {
            let w = row.exempt_roles->0;
            let z = back.exempt_roles->0;
            assert forall|i: int| 0 <= i < v@.len() implies z@[i] == v@[i] by {
                let x: u64 = v@[i];
                assert(x as i64 as u64 == x) by (bit_vector);
            }
            assert(z@ =~= v@);
        },
        None => {},
    }
}

/// Redis key under which a channel's rule is cached.
pub fn media_channel_key(channel_id: u64) -> (r: String)
    ensures
        r@ == "media_channel:"@ + decimal(channel_id as nat),
{
    let mut r = String::from_str("media_channel:");
    push_decimal(&mut r, channel_id);
    r
}

} // verus!
