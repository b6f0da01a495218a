//! Spotify playlist URL parsing and turning playlist tracks into search terms.

use crate::music::youtube::string_views;
use crate::text::{
    concat2, contains_seq, contains_str, push_decimal, spec_trim, split_first, split_first_str,
    split_second, split_second_str, to_owned_str, trim_str, decimal,
};
use vstd::prelude::*;

verus! {

/// The playlist id of a Spotify playlist link: the text after `/playlist/` up to
/// `?`. Text that is neither a Spotify playlist link nor a `spotify:playlist:`
/// URI gives none, and so does such a URI, which has no `/playlist/`.
pub open spec fn spec_spotify_playlist_id(url: Seq<char>) -> Option<Seq<char>> {
    if !contains_seq(url, "open.spotify.com/playlist/"@) && !contains_seq(url, "spotify:playlist:"@) {
        None
    } else {
        match split_second(url, "/playlist/"@) {
            Some(p) => Some(split_first(p, "?"@)),
            None => None,
        }
    }
}

/// Extracts the playlist id of a Spotify playlist link.
pub fn spotify_playlist_id(url: &str) -> (r: Option<&str>)
    ensures
        match r {
            Some(id) => spec_spotify_playlist_id(url@) == Some(id@),
            None => spec_spotify_playlist_id(url@) is None,
        },
{
    if !contains_str(url, "open.spotify.com/playlist/") && !contains_str(url, "spotify:playlist:") {
        return None;
    }
    match split_second_str(url, "/playlist/") {
        Some(p) => Some(split_first_str(p, "?")),
        None => None,
    }
}

/// How many tracks one page of a playlist holds.
pub const SPOTIFY_PAGE_LIMIT: u64 = 100;

/// The offset of the next page to fetch after a page with `items_len` items:
/// none when the page was empty, when the Web API announced no next page, or
/// when the offset would no longer fit; otherwise one page further on.
pub open spec fn spec_next_page_offset(offset: u64, items_len: nat, has_next: bool) -> Option<u64> {
    if items_len == 0 || !has_next || offset + SPOTIFY_PAGE_LIMIT > u64::MAX {
        None
    } else {
        Some((offset + SPOTIFY_PAGE_LIMIT) as u64)
    }
}

/// Decides whether playlist paging goes on after a page, and from which offset.
pub fn next_page_offset(offset: u64, items_len: usize, has_next: bool) -> (r: Option<u64>)
    ensures
        r == spec_next_page_offset(offset, items_len as nat, has_next),
{
    if items_len == 0 || !has_next {
        None
    } else {
        offset.checked_add(SPOTIFY_PAGE_LIMIT)
    }
}

/// The outcome of resolving a playlist: its search terms, or none when no
/// track could be collected.
pub fn playlist_terms_result(terms: Vec<String>) -> (r: Option<Vec<String>>)
    ensures
        match r {
            Some(v) => v@ == terms@ && terms@.len() > 0,
            None => terms@.len() == 0,
        },
{
    if terms.len() == 0 {
        None
    } else {
        Some(terms)
    }
}

/// A track of a Spotify playlist page: its name and the names of its artists.
#[derive(Clone, Debug, PartialEq, Eq)]
pub struct SpotifyTrack {
    pub name: Option<String>,
    pub artist_names: Option<Vec<Option<String>>>,
}

/// The name of the track's first artist, or the empty text.
pub open spec fn first_artist(t: SpotifyTrack) -> Seq<char> {
    match t.artist_names {
        Some(v) => if v@.len() > 0 {
            match v@[0] {
                Some(n) => n@,
                None => Seq::empty(),
            }
        } else {
            Seq::empty()
        },
        None => Seq::empty(),
    }
}

/// The YouTube search term for a track: `ytsearch:{artist} {name}`, trimmed.
pub open spec fn spec_search_term(artist: Seq<char>, name: Seq<char>) -> Seq<char> {
    spec_trim("ytsearch:"@ + artist + " "@ + name)
}

/// The search terms of a playlist page; items without a track or with an empty
/// or missing name are skipped.
pub open spec fn spec_search_terms(items: Seq<Option<SpotifyTrack>>) -> Seq<Seq<char>>
    decreases items.len(),
{
    if items.len() == 0 {
        Seq::empty()
    } else {
        let rest = spec_search_terms(items.drop_last());
        match items.last() {
            Some(t) => match t.name {
                Some(n) => if n@.len() == 0 {
                    rest
                } else {
                    rest.push(spec_search_term(first_artist(t), n@))
                },
                None => rest,
            },
            None => rest,
        }
    }
}

fn first_artist_exec(t: &SpotifyTrack) -> (r: String)
    ensures
        r@ == first_artist(*t),
{
    match &t.artist_names {
        Some(v) => if v.len() > 0 {
            match &v[0] {
                Some(n) => n.clone(),
                None => String::new(),
            }
        } else {
            String::new()
        },
        None => String::new(),
    }
}

/// The YouTube search term for a track.
pub fn search_term(artist: &str, name: &str) -> (r: String)
    ensures
        r@ == spec_search_term(artist@, name@),
{
    let mut s = concat2("ytsearch:", artist);
    s.append(" ");
    s.append(name);
    proof {
        assert(s@ =~= "ytsearch:"@ + artist@ + " "@ + name@);
    }
    to_owned_str(trim_str(s.as_str()))
}

/// Appends the search terms of one playlist page to the collected terms.
pub fn collect_search_terms(terms: &mut Vec<String>, items: &Vec<Option<SpotifyTrack>>)
    ensures
        string_views(final(terms)@) == string_views(old(terms)@) + spec_search_terms(items@),
{
    let mut i: usize = 0;
    while i < items.len()
        invariant
            i <= items@.len(),
            string_views(terms@) == string_views(old(terms)@) + spec_search_terms(
                items@.take(i as int),
            ),
        decreases items@.len() - i,
    {
        proof {
            assert(items@.take(i as int + 1).drop_last() =~= items@.take(i as int));
        }
        if let Some(track) = &items[i] {
            if let Some(name) = &track.name {
                if name.unicode_len() > 0 {
                    let artist = first_artist_exec(track);
                    let ghost before = terms@;
                    terms.push(search_term(artist.as_str(), name.as_str()));
                    proof {
                        assert(string_views(terms@) =~= string_views(before).push(
                            spec_search_term(first_artist(*track), name@),
                        ));
                    }
                }
            }
        }
        i = i + 1;
    }
    proof {
        assert(items@.take(items@.len() as int) =~= items@);
    }
}

/// The Web API address of one page of a playlist's tracks.
pub fn tracks_page_url(playlist_id: &str, limit: u64, offset: u64) -> (r: String)
    ensures
        r@ == "https://api.spotify.com/v1/playlists/"@ + playlist_id@ + "/tracks?limit="@
            + decimal(limit as nat) + "&offset="@ + decimal(offset as nat),
{
    let mut s = concat2("https://api.spotify.com/v1/playlists/", playlist_id);
    s.append("/tracks?limit=");
    push_decimal(&mut s, limit);
    s.append("&offset=");
    push_decimal(&mut s, offset);
    proof {
        assert(s@ =~= "https://api.spotify.com/v1/playlists/"@ + playlist_id@ + "/tracks?limit="@
            + decimal(limit as nat) + "&offset="@ + decimal(offset as nat));
    }
    s
}

} // verus!
