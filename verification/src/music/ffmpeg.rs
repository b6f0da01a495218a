//! The live-stream input: how a query is resolved to a stream URL with `yt-dlp`
//! and decoded to raw PCM with `ffmpeg`.

use crate::text::{spec_trim, split_all, split_all_str, str_views, to_owned_str, trim_str};
use vstd::prelude::*;

verus! {

/// The decoder program.
pub const FFMPEG: &'static str = "ffmpeg";
/// The stream resolver program.
pub const YT_DLP: &'static str = "yt-dlp";
/// Sample rate of the PCM fed to the voice connection.
pub const SAMPLE_RATE: u32 = 48_000;
/// Number of interleaved channels of that PCM.
pub const CHANNELS: u32 = 2;

/// A lazy input that resolves its query and streams it through `ffmpeg` when
/// playback starts.
#[derive(Debug, Clone)]
pub struct FfmpegLiveInput {
    query: String,
}

impl FfmpegLiveInput {
    /// The query the input resolves.
    pub closed spec fn spec_query(&self) -> Seq<char> {
        self.query@
    }

    /// Creates a lazy input for `query`.
    pub fn new(query: String) -> (r: FfmpegLiveInput)
        ensures
            r.spec_query() == query@,
    {
        FfmpegLiveInput { query }
    }

    /// The query the input resolves.
    pub fn query(&self) -> (r: &str)
        ensures
            r@ == self.spec_query(),
    {
        self.query.as_str()
    }
}

/// Builds a vector of owned strings from string slices.
fn owned_args(parts: &[&str]) -> (r: Vec<String>)
    ensures
        r@.len() == parts@.len(),
        forall|i: int| 0 <= i < parts@.len() ==> #[trigger] r@[i]@ == parts@[i]@,
{
    let mut r: Vec<String> = Vec::new();
    let mut i: usize = 0;
    while i < parts.len()
        invariant
            i <= parts@.len(),
            r@.len() == i,
            forall|j: int| 0 <= j < i ==> #[trigger] r@[j]@ == parts@[j]@,
        decreases parts@.len() - i,
    {
        r.push(to_owned_str(parts[i]));
        i = i + 1;
    }
    r
}

/// The arguments of the `yt-dlp` call that resolves a query to the URL of its
/// best audio-only stream.
pub fn resolver_args(query: &str) -> (r: Vec<String>)
    ensures
        r@.len() == 6,
        r@[0]@ == "-g"@,
        r@[1]@ == "-f"@,
        r@[2]@ == "ba[abr>0][vcodec=none]/best"@,
        r@[3]@ == "--no-playlist"@,
        r@[4]@ == "--no-warnings"@,
        r@[5]@ == query@,
{
    let parts = ["-g", "-f", "ba[abr>0][vcodec=none]/best", "--no-playlist", "--no-warnings", query];
    owned_args(&parts)
}

/// The arguments of the `ffmpeg` call that decodes `url` to 32-bit float PCM,
/// stereo at 48 kHz, on its standard output.
pub fn decoder_args(url: &str) -> (r: Vec<String>)
    ensures
        r@.len() == 16,
        r@[0]@ == "-hide_banner"@,
        r@[1]@ == "-loglevel"@,
        r@[2]@ == "error"@,
        r@[3]@ == "-nostdin"@,
        r@[4]@ == "-i"@,
        r@[5]@ == url@,
        r@[6]@ == "-vn"@,
        r@[7]@ == "-acodec"@,
        r@[8]@ == "pcm_f32le"@,
        r@[9]@ == "-f"@,
        r@[10]@ == "f32le"@,
        r@[11]@ == "-ac"@,
        r@[12]@ == "2"@,
        r@[13]@ == "-ar"@,
        r@[14]@ == "48000"@,
        r@[15]@ == "pipe:1"@,
{
    let parts = [
        "-hide_banner",
        "-loglevel",
        "error",
        "-nostdin",
        "-i",
        url,
        "-vn",
        "-acodec",
        "pcm_f32le",
        "-f",
        "f32le",
        "-ac",
        "2",
        "-ar",
        "48000",
        "pipe:1",
    ];
    owned_args(&parts)
}

/// The first non-blank line, trimmed.
pub open spec fn first_nonblank(lines: Seq<Seq<char>>) -> Option<Seq<char>>
    decreases lines.len(),
{
    if lines.len() == 0 {
        None
    } else if spec_trim(lines[0]).len() > 0 {
        Some(spec_trim(lines[0]))
    } else {
        first_nonblank(lines.drop_first())
    }
}

/// The stream URL in the resolver's output: its first non-blank line, trimmed;
/// an error naming the query when there is none.
pub fn stream_url_from_output(stdout: &str, query: &str) -> (r: Result<String, String>)
    ensures
        match first_nonblank(split_all(stdout@, "\n"@)) {
            Some(u) => r matches Ok(v) && v@ == u,
            None => r matches Err(e) && e@ == "'yt-dlp' returned no stream URL for '"@ + query@ + "'"@,
        },
{
    proof {
        reveal_strlit("\n");
    }
    let lines = split_all_str(stdout, "\n");
    let ghost views = str_views(lines@);
    let mut k: usize = 0;
    proof {
        assert(views.skip(0) =~= views);
    }
    while k < lines.len()
        invariant
            k <= lines@.len(),
            views == str_views(lines@),
            views == split_all(stdout@, "\n"@),
            views.len() == lines@.len(),
            first_nonblank(views) == first_nonblank(views.skip(k as int)),
        decreases lines@.len() - k,
    {
        let t = trim_str(lines[k]);
        proof {
            assert(views[k as int] == lines@[k as int]@);
            assert(views.skip(k as int)[0] == views[k as int]);
        }
        if t.unicode_len() > 0 {
            proof {
                assert(views.skip(k as int).len() > 0);
                assert(spec_trim(views.skip(k as int)[0]) == t@);
                assert(first_nonblank(views.skip(k as int)) == Some(t@));
            }
            return Ok(to_owned_str(t));
        }
        proof {
            assert(views.skip(k as int).drop_first() =~= views.skip(k as int + 1));
        }
        k = k + 1;
    }
    let mut e = String::from_str("'yt-dlp' returned no stream URL for '");
    e.append(query);
    e.append("'");
    Err(e)
}

/// The error for a resolver run that failed, with its trimmed error output.
pub fn resolver_failure_message(stderr: &str) -> (r: String)
    ensures
        r@ == "'yt-dlp' failed: "@ + spec_trim(stderr@),
{
    let mut r = String::from_str("'yt-dlp' failed: ");
    r.append(trim_str(stderr));
    r
}

} // verus!
