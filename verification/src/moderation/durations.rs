//! Human readable durations: parsing what moderators type and printing
//! durations in moderation messages.

use duration_str::HumanFormat;
use vstd::prelude::*;

verus! {

/// The duration `duration_str::parse_std` reads from `input`, as whole seconds
/// and sub-second nanoseconds, or `None` where it reports an error.
pub uninterp spec fn parsed_duration(input: Seq<char>) -> Option<(u64, u32)>;

/// The text `HumanFormat::human_format` of `duration_str` gives for a duration
/// of `secs` seconds and `nanos` nanoseconds.
pub uninterp spec fn human_format_of(secs: u64, nanos: u32) -> Seq<char>;

/// The text `humantime::format_duration` displays for a duration of `secs`
/// seconds and `nanos` nanoseconds.
pub uninterp spec fn humantime_of(secs: u64, nanos: u32) -> Seq<char>;

/// `duration_str::parse_std`: the parsed duration, or `None` on an error. The
/// result is named, not described; the nanoseconds of a std `Duration` are
/// always below one billion.
#[verifier::external_body]
pub(crate) fn parse_std(input: &str) -> (r: Option<(u64, u32)>)
    ensures
        r == parsed_duration(input@),
        r matches Some((s, n)) ==> n < 1_000_000_000,
{
    match duration_str::parse_std(input) {
        Ok(d) => Some((d.as_secs(), d.subsec_nanos())),
        Err(_) => None,
    }
}

/// `duration_str::HumanFormat::human_format` on a std `Duration`: named, and a
/// zero duration reads `0s`, as its source returns first.
#[verifier::external_body]
pub(crate) fn human_format(secs: u64, nanos: u32) -> (r: String)
    requires
        nanos < 1_000_000_000,
    ensures
        r@ == human_format_of(secs, nanos),
        secs == 0 && nanos == 0 ==> r@ == "0s"@,
{
    std::time::Duration::new(secs, nanos).human_format()
}

/// `humantime::format_duration(d).to_string()`: named, and a zero duration
/// reads `0s`, as its `Display` writes first.
#[verifier::external_body]
pub(crate) fn humantime_format(secs: u64, nanos: u32) -> (r: String)
    requires
        nanos < 1_000_000_000,
    ensures
        r@ == humantime_of(secs, nanos),
        secs == 0 && nanos == 0 ==> r@ == "0s"@,
{
    humantime::format_duration(std::time::Duration::new(secs, nanos)).to_string()
}

/// The reply to a duration that could not be read.
pub open spec fn invalid_duration_message() -> Seq<char> {
    "Invalid duration format. Please use formats like '30m', '2h', or '1d'."@
}

/// Reads a duration typed by a moderator (`30m`, `2h`, `1d`, ...), or gives the
/// reply explaining the accepted formats.
pub fn parse_duration(input: &str) -> (r: Result<(u64, u32), &'static str>)
    ensures
        match parsed_duration(input@) {
            Some(d) => r == Ok::<(u64, u32), &'static str>(d),
            None => r matches Err(m) && m@ == invalid_duration_message(),
        },
        r matches Ok((s, n)) ==> n < 1_000_000_000,
{
    match parse_std(input) {
        Some(d) => Ok(d),
        None => Err("Invalid duration format. Please use formats like '30m', '2h', or '1d'."),
    }
}

/// The duration shown in a ban message: `Permanent` without an expiry.
pub fn ban_duration_label(duration: Option<(u64, u32)>) -> (r: String)
    requires
        duration matches Some((s, n)) ==> n < 1_000_000_000,
    ensures
        r@ == match duration {
            Some((s, n)) => humantime_of(s, n),
            None => "Permanent"@,
        },
{
    match duration {
        Some((s, n)) => humantime_format(s, n),
        None => String::from_str("Permanent"),
    }
}

/// The duration shown in a mute message.
pub fn mute_duration_label(secs: u64, nanos: u32) -> (r: String)
    requires
        nanos < 1_000_000_000,
    ensures
        r@ == human_format_of(secs, nanos),
{
    human_format(secs, nanos)
}

} // verus!
