//! YouTube URL parsing and playlist page handling.

use crate::text::{
    chars_of, concat2, contains_seq, contains_str, split_first, split_first_str, split_second,
    split_second_str,
};
use vstd::prelude::*;

verus! {

/// The playlist id in a YouTube URL (after `list=`, up to the next `&`), or the
/// whole input when it looks like a bare id (no `/` and no `.`).
pub open spec fn spec_playlist_id(url: Seq<char>) -> Option<Seq<char>> {
    if contains_seq(url, "list="@) {
        match split_second(url, "list="@) {
            Some(p) => Some(split_first(p, "&"@)),
            None => None,
        }
    } else if !contains_seq(url, "/"@) && !contains_seq(url, "."@) {
        Some(url)
    } else {
        None
    }
}

/// Extracts the YouTube playlist id from a URL or a raw id string.
pub fn extract_playlist_id(url: &str) -> (r: Option<&str>)
    ensures
        match r {
            Some(id) => spec_playlist_id(url@) == Some(id@),
            None => spec_playlist_id(url@) is None,
        },
{
    if contains_str(url, "list=") {
        match split_second_str(url, "list=") {
            Some(p) => Some(split_first_str(p, "&")),
            None => None,
        }
    } else if !contains_str(url, "/") && !contains_str(url, ".") {
        Some(url)
    } else {
        None
    }
}

/// The piece after the first `marker`, cut at the first `?` and then at the first `&`.
pub open spec fn id_after(url: Seq<char>, marker: Seq<char>) -> Option<Seq<char>> {
    match split_second(url, marker) {
        Some(p) => Some(split_first(split_first(p, "?"@), "&"@)),
        None => None,
    }
}

/// A `v` query parameter starts at `i`: `v=` at the start of the text or right
/// after the `?` that opens the query or an `&` that separates parameters.
pub open spec fn v_param_at(url: Seq<char>, i: int) -> bool {
    &&& 0 <= i
    &&& i + 2 <= url.len()
    &&& url[i] == 'v'
    &&& url[i + 1] == '='
    &&& (i == 0 || url[i - 1] == '?' || url[i - 1] == '&')
}

/// The first position at or after `k` where a `v` query parameter starts.
pub open spec fn first_v_param_from(url: Seq<char>, k: int) -> Option<int>
    decreases url.len() - k,
{
    if k < 0 || k + 2 > url.len() {
        None
    } else if v_param_at(url, k) {
        Some(k)
    } else {
        first_v_param_from(url, k + 1)
    }
}

/// The value of the first `v` query parameter: the text after its `v=`, up to
/// the next `&`.
pub open spec fn v_param(url: Seq<char>) -> Option<Seq<char>> {
    match first_v_param_from(url, 0) {
        Some(i) => Some(split_first(url.skip(i + 2), "&"@)),
        None => None,
    }
}

/// The video id in a YouTube URL: the value of its `v` query parameter; else
/// after `youtu.be/` or `shorts/` (up to `?` or `&`); else the whole input when
/// it looks like a bare id.
pub open spec fn spec_video_id(url: Seq<char>) -> Option<Seq<char>> {
    if v_param(url) is Some {
        v_param(url)
    } else if contains_seq(url, "youtu.be/"@) {
        id_after(url, "youtu.be/"@)
    } else if contains_seq(url, "shorts/"@) {
        id_after(url, "shorts/"@)
    } else if !contains_seq(url, "/"@) && !contains_seq(url, "."@) {
        Some(url)
    } else {
        None
    }
}

/// Finds the value of the first `v` query parameter.
fn v_param_exec<'a>(url: &'a str) -> (r: Option<&'a str>)
    ensures
        match r {
            Some(id) => v_param(url@) == Some(id@),
            None => v_param(url@) is None,
        },
{
    let cs = chars_of(url);
    let n = cs.len();
    let mut k: usize = 0;
    while k < n && n - k >= 2
        invariant
            cs@ == url@,
            n == url@.len(),
            k <= n,
            first_v_param_from(url@, 0) == first_v_param_from(url@, k as int),
        decreases n - k,
    {
        if cs[k] == 'v' && cs[k + 1] == '=' && (k == 0 || cs[k - 1] == '?' || cs[k - 1] == '&') {
            let rest = url.substring_char(k + 2, n);
            proof {
                assert(v_param_at(url@, k as int));
                assert(rest@ =~= url@.skip(k as int + 2));
            }
            return Some(split_first_str(rest, "&"));
        }
        k = k + 1;
    }
    None
}

fn id_after_exec<'a>(url: &'a str, marker: &str) -> (r: Option<&'a str>)
    ensures
        match r {
            Some(id) => id_after(url@, marker@) == Some(id@),
            None => id_after(url@, marker@) is None,
        },
{
    match split_second_str(url, marker) {
        Some(p) => Some(split_first_str(split_first_str(p, "?"), "&")),
        None => None,
    }
}

/// Extracts the video id from standard YouTube, Shorts, or shortened URLs.
pub fn extract_video_id(url: &str) -> (r: Option<&str>)
    ensures
        match r {
            Some(id) => spec_video_id(url@) == Some(id@),
            None => spec_video_id(url@) is None,
        },
{
    let v = v_param_exec(url);
    if v.is_some() {
        v
    } else if contains_str(url, "youtu.be/") {
        id_after_exec(url, "youtu.be/")
    } else if contains_str(url, "shorts/") {
        id_after_exec(url, "shorts/")
    } else if !contains_str(url, "/") && !contains_str(url, ".") {
        Some(url)
    } else {
        None
    }
}

/// The canonical watch URL of a video id.
pub fn watch_url(video_id: &str) -> (r: String)
    ensures
        r@ == "https://www.youtube.com/watch?v="@ + video_id@,
{
    concat2("https://www.youtube.com/watch?v=", video_id)
}

/// The views of a list of strings.
pub open spec fn string_views(v: Seq<String>) -> Seq<Seq<char>> {
    v.map_values(|s: String| s@)
}

/// The watch URLs of the videos of one playlist page, skipping items without a
/// video id.
pub open spec fn spec_page_urls(ids: Seq<Option<String>>) -> Seq<Seq<char>>
    decreases ids.len(),
{
    if ids.len() == 0 {
        Seq::empty()
    } else {
        let rest = spec_page_urls(ids.drop_last());
        match ids.last() {
            Some(id) => rest.push("https://www.youtube.com/watch?v="@ + id@),
            None => rest,
        }
    }
}

/// Appends the watch URLs of one playlist page to the collected URLs.
pub fn collect_page_urls(video_urls: &mut Vec<String>, ids: &Vec<Option<String>>)
    ensures
        string_views(final(video_urls)@) == string_views(old(video_urls)@) + spec_page_urls(ids@),
{
    let mut i: usize = 0;
    while i < ids.len()
        invariant
            i <= ids@.len(),
            string_views(video_urls@) == string_views(old(video_urls)@) + spec_page_urls(
                ids@.take(i as int),
            ),
        decreases ids@.len() - i,
    {
        proof {
            assert(ids@.take(i as int + 1).drop_last() =~= ids@.take(i as int));
        }
        match &ids[i] {
            Some(id) => {
                let ghost before = video_urls@;
                video_urls.push(watch_url(id.as_str()));
                proof {
                    assert(string_views(video_urls@) =~= string_views(before).push(
                        "https://www.youtube.com/watch?v="@ + id@,
                    ));
                }
            },
            None => {},
        }
        i = i + 1;
    }
    proof {
        assert(ids@.take(ids@.len() as int) =~= ids@);
    }
}

/// The token of the next page to fetch: present and not empty.
pub fn next_page_token(token: Option<String>) -> (r: Option<String>)
    ensures
        r == (match token {
            Some(t) => if t@.len() > 0 {
                Some(t)
            } else {
                None::<String>
            },
            None => None::<String>,
        }),
{
    match token {
        Some(t) => if t.unicode_len() > 0 {
            Some(t)
        } else {
            None
        },
        None => None,
    }
}


/// Only URLs mentioning `youtube` are resolved as YouTube playlists.
pub fn is_youtube_playlist_candidate(url: &str) -> (r: bool)
    ensures
        r == contains_seq(url@, "youtube"@),
{
    contains_str(url, "youtube")
}

/// The Data API v3 address of one page (50 items) of a playlist's items.
pub fn playlist_items_url(playlist_id: &str, api_key: &str, page_token: Option<&str>) -> (r: String)
    ensures
        r@ == "https://www.googleapis.com/youtube/v3/playlistItems?part=snippet&maxResults=50&playlistId="@
            + playlist_id@ + "&key="@ + api_key@ + match page_token {
            Some(t) => "&pageToken="@ + t@,
            None => Seq::<char>::empty(),
        },
{
    let mut s = concat2(
        "https://www.googleapis.com/youtube/v3/playlistItems?part=snippet&maxResults=50&playlistId=",
        playlist_id,
    );
    s.append("&key=");
    s.append(api_key);
    let ghost base = s@;
    if let Some(t) = page_token {
        s.append("&pageToken=");
        s.append(t);
    }
    proof {
        assert(s@ =~= "https://www.googleapis.com/youtube/v3/playlistItems?part=snippet&maxResults=50&playlistId="@
            + playlist_id@ + "&key="@ + api_key@ + match page_token {
            Some(t) => "&pageToken="@ + t@,
            None => Seq::<char>::empty(),
        });
    }
    s
}

/// The Data API v3 address of a single video's snippet.
pub fn video_url(video_id: &str, api_key: &str) -> (r: String)
    ensures
        r@ == "https://www.googleapis.com/youtube/v3/videos?part=snippet&id="@ + video_id@
            + "&key="@ + api_key@,
{
    let mut s = concat2("https://www.googleapis.com/youtube/v3/videos?part=snippet&id=", video_id);
    s.append("&key=");
    s.append(api_key);
    proof {
        assert(s@ =~= "https://www.googleapis.com/youtube/v3/videos?part=snippet&id="@ + video_id@
            + "&key="@ + api_key@);
    }
    s
}

} // verus!
