//! Timestamps (`1:30`, `01:15:30`, `90`), seek inputs and duration formatting.

use crate::text::{
    all_digits, decimal, decimal_pad2, find_from, is_digit, is_ws,
    lemma_decimal_pad2, lemma_starts_with_char, occurs_at, parse_u64, push_char, push_decimal,
    spec_parse_u64, spec_trim, split_all, split_all_str, str_views, strip_prefix_str, trim_end,
    trim_start, trim_str,
};
use vstd::prelude::*;

verus! {

/// How a seek request positions playback. Amounts are whole seconds.
#[derive(Clone, Copy, Debug, PartialEq, Eq)]
pub enum SeekMode {
    /// Seek to this position.
    Absolute(u64),
    /// Seek forward by this amount.
    RelativeForward(u64),
    /// Seek backward by this amount.
    RelativeBackward(u64),
}

/// The number of seconds that a timestamp denotes, computed without bounds:
/// raw seconds (`90`), `M:SS` or `H:MM:SS` where the minutes and seconds fields
/// below the largest unit stay under 60. Surrounding whitespace is ignored.
pub open spec fn timestamp_secs(input: Seq<char>) -> Option<int> {
    let t = spec_trim(input);
    match spec_parse_u64(t) {
        Some(v) => Some(v as int),
        None => {
            let parts = split_all(t, seq![':']);
            if parts.len() == 2 {
                match (spec_parse_u64(parts[0]), spec_parse_u64(parts[1])) {
                    (Some(m), Some(s)) => if s >= 60 {
                        None
                    } else {
                        Some(m * 60 + s)
                    },
                    _ => None,
                }
            } else if parts.len() == 3 {
                match (spec_parse_u64(parts[0]), spec_parse_u64(parts[1]), spec_parse_u64(parts[2])) {
                    (Some(h), Some(m), Some(s)) => if m >= 60 || s >= 60 {
                        None
                    } else {
                        Some(h * 3600 + m * 60 + s)
                    },
                    _ => None,
                }
            } else {
                None
            }
        },
    }
}

/// The timestamp's value, if any, fits in a `u64` (above it the conversion overflows).
pub open spec fn timestamp_fits(input: Seq<char>) -> bool {
    timestamp_secs(input) matches Some(v) ==> v <= u64::MAX
}

/// What `parse_timestamp` returns for an input whose value fits.
pub open spec fn spec_parse_timestamp(input: Seq<char>) -> Option<u64> {
    match timestamp_secs(input) {
        Some(v) => Some(v as u64),
        None => None,
    }
}

/// Whether the value of a timestamp fits in a `u64`, so that parsing it cannot overflow.
pub fn timestamp_in_range(input: &str) -> (r: bool)
    ensures
        r == timestamp_fits(input@),
{
    let t = trim_str(input);
    if parse_u64(t).is_some() {
        return true;
    }
    proof {
        reveal_strlit(":");
        assert(":"@ =~= seq![':']);
    }
    let parts = split_all_str(t, ":");
    proof {
        assert(str_views(parts@).len() == parts@.len());
    }
    if parts.len() == 2 {
        proof {
            assert(str_views(parts@)[0] == parts@[0]@);
            assert(str_views(parts@)[1] == parts@[1]@);
        }
        match (parse_u64(parts[0]), parse_u64(parts[1])) {
            (Some(m), Some(s)) => {
                if s >= 60 {
                    true
                } else {
                    m <= (u64::MAX - s) / 60
                }
            },
            _ => true,
        }
    } else if parts.len() == 3 {
        proof {
            assert(str_views(parts@)[0] == parts@[0]@);
            assert(str_views(parts@)[1] == parts@[1]@);
            assert(str_views(parts@)[2] == parts@[2]@);
        }
        match (parse_u64(parts[0]), parse_u64(parts[1]), parse_u64(parts[2])) {
            (Some(h), Some(m), Some(s)) => {
                if m >= 60 || s >= 60 {
                    true
                } else {
                    h <= (u64::MAX - m * 60 - s) / 3600
                }
            },
            _ => true,
        }
    } else {
        true
    }
}

/// Parses a string like `1:30`, `01:15:30`, or `90` into whole seconds.
pub fn parse_timestamp(input: &str) -> (r: Option<u64>)
    requires
        timestamp_fits(input@),
    ensures
        r == spec_parse_timestamp(input@),
{
    let t = trim_str(input);
    if let Some(secs) = parse_u64(t) {
        return Some(secs);
    }
    proof {
        reveal_strlit(":");
        assert(":"@ =~= seq![':']);
    }
    let parts = split_all_str(t, ":");
    proof {
        assert(str_views(parts@).len() == parts@.len());
    }
    if parts.len() == 2 {
        proof {
            assert(str_views(parts@)[0] == parts@[0]@);
            assert(str_views(parts@)[1] == parts@[1]@);
        }
        let m = match parse_u64(parts[0]) {
            Some(m) => m,
            None => return None,
        };
        let s = match parse_u64(parts[1]) {
            Some(s) => s,
            None => return None,
        };
        if s >= 60 {
            return None;
        }
        Some(m * 60 + s)
    } else if parts.len() == 3 {
        proof {
            assert(str_views(parts@)[0] == parts@[0]@);
            assert(str_views(parts@)[1] == parts@[1]@);
            assert(str_views(parts@)[2] == parts@[2]@);
        }
        let h = match parse_u64(parts[0]) {
            Some(h) => h,
            None => return None,
        };
        let m = match parse_u64(parts[1]) {
            Some(m) => m,
            None => return None,
        };
        let s = match parse_u64(parts[2]) {
            Some(s) => s,
            None => return None,
        };
        if m >= 60 || s >= 60 {
            return None;
        }
        Some(h * 3600 + m * 60 + s)
    } else {
        None
    }
}


/// What `parse_seek_input` gives: `+T` seeks forward by `T`, `-T` backward by `T`,
/// and a bare `T` seeks to `T` (surrounding whitespace ignored).
pub open spec fn spec_parse_seek(input: Seq<char>) -> Option<SeekMode> {
    let t = spec_trim(input);
    if t.len() > 0 && t[0] == '+' {
        match spec_parse_timestamp(t.drop_first()) {
            Some(d) => Some(SeekMode::RelativeForward(d)),
            None => None,
        }
    } else if t.len() > 0 && t[0] == '-' {
        match spec_parse_timestamp(t.drop_first()) {
            Some(d) => Some(SeekMode::RelativeBackward(d)),
            None => None,
        }
    } else {
        match spec_parse_timestamp(t) {
            Some(d) => Some(SeekMode::Absolute(d)),
            None => None,
        }
    }
}

/// The timestamp inside a seek input fits in a `u64`.
pub open spec fn seek_input_fits(input: Seq<char>) -> bool {
    let t = spec_trim(input);
    if t.len() > 0 && (t[0] == '+' || t[0] == '-') {
        timestamp_fits(t.drop_first())
    } else {
        timestamp_fits(t)
    }
}

/// Whether parsing this seek input cannot overflow.
pub fn seek_input_in_range(input: &str) -> (r: bool)
    ensures
        r == seek_input_fits(input@),
{
    let t = trim_str(input);
    proof {
        reveal_strlit("+");
        reveal_strlit("-");
        assert("+"@ =~= seq!['+']);
        assert("-"@ =~= seq!['-']);
        lemma_starts_with_char(spec_trim(input@), '+');
        lemma_starts_with_char(spec_trim(input@), '-');
    }
    if let Some(rest) = strip_prefix_str(t, "+") {
        proof { assert(rest@ =~= t@.drop_first()); }
        timestamp_in_range(rest)
    } else if let Some(rest) = strip_prefix_str(t, "-") {
        proof { assert(rest@ =~= t@.drop_first()); }
        timestamp_in_range(rest)
    } else {
        timestamp_in_range(t)
    }
}

/// Parses seek inputs with relative signs like `+30`, `-15`, or absolute `1:30`.
pub fn parse_seek_input(input: &str) -> (r: Option<SeekMode>)
    requires
        seek_input_fits(input@),
    ensures
        r == spec_parse_seek(input@),
{
    let trimmed = trim_str(input);
    proof {
        reveal_strlit("+");
        reveal_strlit("-");
        assert("+"@ =~= seq!['+']);
        assert("-"@ =~= seq!['-']);
        lemma_starts_with_char(spec_trim(input@), '+');
        lemma_starts_with_char(spec_trim(input@), '-');
    }
    if let Some(rest) = strip_prefix_str(trimmed, "+") {
        proof { assert(rest@ =~= trimmed@.drop_first()); }
        let dur = parse_timestamp(rest)?;
        Some(SeekMode::RelativeForward(dur))
    } else if let Some(rest) = strip_prefix_str(trimmed, "-") {
        proof { assert(rest@ =~= trimmed@.drop_first()); }
        let dur = parse_timestamp(rest)?;
        Some(SeekMode::RelativeBackward(dur))
    } else {
        let dur = parse_timestamp(trimmed)?;
        Some(SeekMode::Absolute(dur))
    }
}

/// `HH:MM:SS` (when there is at least an hour) or `MM:SS`, each field zero-padded
/// to two digits; `Unknown` when there is no duration.
pub open spec fn spec_format_duration(secs: Option<u64>) -> Seq<char> {
    match secs {
        None => "Unknown"@,
        Some(total) => {
            let hours = total / 3600;
            let mins = (total % 3600) / 60;
            let s = total % 60;
            if hours > 0 {
                decimal_pad2(hours as nat) + seq![':'] + decimal_pad2(mins as nat) + seq![':']
                    + decimal_pad2(s as nat)
            } else {
                decimal_pad2(mins as nat) + seq![':'] + decimal_pad2(s as nat)
            }
        },
    }
}

/// Appends `n` zero-padded to two digits (`{:02}`).
fn push_pad2(out: &mut String, n: u64)
    ensures
        final(out)@ == old(out)@ + decimal_pad2(n as nat),
{
    if n < 10 {
        push_char(out, '0');
        push_decimal(out, n);
        proof {
            assert(decimal(n as nat) == seq![crate::text::digit_char(n as nat)]);
        }
    } else {
        push_decimal(out, n);
    }
    proof {
        assert(final(out)@ =~= old(out)@ + decimal_pad2(n as nat));
    }
}

/// Formats a duration in whole seconds as `03:45` or `01:15:30`.
pub fn format_duration(secs: Option<u64>) -> (r: String)
    ensures
        r@ == spec_format_duration(secs),
{
    match secs {
        None => String::from_str("Unknown"),
        Some(total) => {
            let hours = total / 3600;
            let mins = (total % 3600) / 60;
            let s = total % 60;
            let mut out = String::new();
            if hours > 0 {
                push_pad2(&mut out, hours);
                push_char(&mut out, ':');
            }
            push_pad2(&mut out, mins);
            push_char(&mut out, ':');
            push_pad2(&mut out, s);
            proof {
                if hours > 0 {
                    assert(out@ =~= spec_format_duration(secs));
                } else {
                    assert(out@ =~= spec_format_duration(secs));
                }
            }
            out
        },
    }
}


/// A string without whitespace is its own trim.
proof fn lemma_trim_noop(s: Seq<char>)
    requires
        forall|i: int| 0 <= i < s.len() ==> !is_ws(#[trigger] s[i]),
    ensures
        spec_trim(s) == s,
{
    assert(trim_start(s) == s);
    assert(trim_end(s) == s);
}

/// A run of digits holds no colon.
proof fn lemma_no_colon_from(b: Seq<char>, k: int)
    requires
        all_digits(b),
        0 <= k,
    ensures
        find_from(b, seq![':'], k) is None,
    decreases b.len() - k,
{
    if k + 1 <= b.len() {
        assert(is_digit(b[k]));
        assert(b.subrange(k, k + 1)[0] == b[k]);
        assert(!occurs_at(b, seq![':'], k));
        lemma_no_colon_from(b, k + 1);
    }
}

/// In `a:rest` with `a` a run of digits, the first colon is the one after `a`.
proof fn lemma_first_colon_from(a: Seq<char>, rest: Seq<char>, k: int)
    requires
        all_digits(a),
        0 <= k <= a.len(),
    ensures
        find_from(a + seq![':'] + rest, seq![':'], k) == Some(a.len() as int),
    decreases a.len() - k,
{
    let x = a + seq![':'] + rest;
    if k == a.len() {
        assert(x.subrange(k, k + 1) =~= seq![':']);
    } else {
        assert(x[k] == a[k]);
        assert(is_digit(a[k]));
        assert(x.subrange(k, k + 1)[0] == x[k]);
        assert(!occurs_at(x, seq![':'], k));
        lemma_first_colon_from(a, rest, k + 1);
    }
}

/// Splitting `a:rest` at colons gives `a`, then the pieces of `rest`.
proof fn lemma_split_colon(a: Seq<char>, rest: Seq<char>)
    requires
        all_digits(a),
    ensures
        split_all(a + seq![':'] + rest, seq![':']) == seq![a] + split_all(rest, seq![':']),
{
    let x = a + seq![':'] + rest;
    lemma_first_colon_from(a, rest, 0);
    assert(x.take(a.len() as int) =~= a);
    assert(x.skip(a.len() as int + 1) =~= rest);
}

/// A run of digits is a single piece.
proof fn lemma_split_digits(b: Seq<char>)
    requires
        all_digits(b),
    ensures
        split_all(b, seq![':']) == seq![b],
{
    lemma_no_colon_from(b, 0);
}

/// A zero-padded field parses back to its value.
proof fn lemma_parse_pad2(v: u64)
    ensures
        spec_parse_u64(decimal_pad2(v as nat)) == Some(v),
        all_digits(decimal_pad2(v as nat)),
{
    lemma_decimal_pad2(v as nat);
    let d = decimal_pad2(v as nat);
    assert(is_digit(d[0]));
}

/// Digits and colons are not whitespace.
proof fn lemma_formatted_no_ws(x: Seq<char>)
    requires
        forall|i: int| 0 <= i < x.len() ==> is_digit(#[trigger] x[i]) || x[i] == ':',
    ensures
        spec_trim(x) == x,
{
    assert forall|i: int| 0 <= i < x.len() implies !is_ws(#[trigger] x[i]) by {
        assert(is_digit(x[i]) || x[i] == ':');
    }
    lemma_trim_noop(x);
}

/// Formatting a duration and parsing it back gives the same number of seconds.
pub proof fn law_format_parse_roundtrip(n: u64)
    ensures
        spec_parse_timestamp(spec_format_duration(Some(n))) == Some(n),
        timestamp_fits(spec_format_duration(Some(n))),
{
    let hours = n / 3600;
    let mins = (n % 3600) / 60;
    let secs = n % 60;
    let x = spec_format_duration(Some(n));
    let ph = decimal_pad2(hours as nat);
    let pm = decimal_pad2(mins as nat);
    let ps = decimal_pad2(secs as nat);
    lemma_parse_pad2(hours);
    lemma_parse_pad2(mins);
    lemma_parse_pad2(secs);
    assert(n as int == hours * 3600 + mins * 60 + secs) by (nonlinear_arith)
        requires
            hours == n / 3600,
            mins == (n % 3600) / 60,
            secs == n % 60,
    ;
    if hours > 0 {
        assert(x == ph + seq![':'] + pm + seq![':'] + ps);
        assert forall|i: int| 0 <= i < x.len() implies is_digit(#[trigger] x[i]) || x[i] == ':' by {
            if i < ph.len() {
                assert(x[i] == ph[i]);
            } else if i == ph.len() {
            } else if i < ph.len() + 1 + pm.len() {
                assert(x[i] == pm[i - ph.len() - 1]);
            } else if i == ph.len() + 1 + pm.len() {
            } else {
                assert(x[i] == ps[i - ph.len() - 2 - pm.len()]);
            }
        }
        lemma_formatted_no_ws(x);
        assert(!is_digit(x[ph.len() as int]));
        assert(spec_parse_u64(x) is None);
        lemma_split_colon(ph, pm + seq![':'] + ps);
        assert(ph + seq![':'] + (pm + seq![':'] + ps) =~= x);
        lemma_split_colon(pm, ps);
        lemma_split_digits(ps);
        assert(split_all(x, seq![':']) =~= seq![ph, pm, ps]);
    } else {
        assert(x == pm + seq![':'] + ps);
        assert forall|i: int| 0 <= i < x.len() implies is_digit(#[trigger] x[i]) || x[i] == ':' by {
            if i < pm.len() {
                assert(x[i] == pm[i]);
            } else if i == pm.len() {
            } else {
                assert(x[i] == ps[i - pm.len() - 1]);
            }
        }
        lemma_formatted_no_ws(x);
        assert(!is_digit(x[pm.len() as int]));
        assert(spec_parse_u64(x) is None);
        lemma_split_colon(pm, ps);
        lemma_split_digits(ps);
        assert(split_all(x, seq![':']) =~= seq![pm, ps]);
    }
}

} // verus!
