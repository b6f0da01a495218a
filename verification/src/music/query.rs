//! Turning a user's query into something the media resolver can play.

use crate::text::{concat2, starts_with_seq, starts_with_str, to_owned_str};
use vstd::prelude::*;

verus! {

/// The URL or search to play for a single query: a resolved Spotify track search
/// first, then a resolved YouTube watch URL, then the query itself when it is an
/// `http(s)` link, else a YouTube search for it.
pub open spec fn spec_query_url(
    query: Seq<char>,
    spotify: Option<Seq<char>>,
    youtube: Option<Seq<char>>,
) -> Seq<char> {
    match spotify {
        Some(s) => s,
        None => match youtube {
            Some(y) => y,
            None => if starts_with_seq(query, "http://"@) || starts_with_seq(query, "https://"@) {
                query
            } else {
                "ytsearch:"@ + query
            },
        },
    }
}

/// Chooses what to play for a query, given what the Spotify and YouTube
/// resolvers made of it.
pub fn build_query_url(query: &str, spotify: Option<String>, youtube: Option<String>) -> (r: String)
    ensures
        r@ == spec_query_url(
            query@,
            match spotify {
                Some(s) => Some(s@),
                None => None,
            },
            match youtube {
                Some(y) => Some(y@),
                None => None,
            },
        ),
{
    if let Some(s) = spotify {
        return s;
    }
    if let Some(y) = youtube {
        return y;
    }
    if starts_with_str(query, "http://") || starts_with_str(query, "https://") {
        to_owned_str(query)
    } else {
        concat2("ytsearch:", query)
    }
}

} // verus!
