//! Storing a moderation duration as a Postgres `interval`.

use vstd::prelude::*;

verus! {

/// Microseconds in a day.
pub const MICROS_PER_DAY: i64 = 86_400_000_000;

/// A Postgres interval: months, days and microseconds.
#[derive(Debug, Clone, Copy, PartialEq, Eq, Structural)]
pub struct PgInterval {
    pub months: i32,
    pub days: i32,
    pub microseconds: i64,
}

/// `a / b` rounded toward zero, for a positive `b`.
pub open spec fn trunc_div(a: int, b: int) -> int {
    if a >= 0 {
        a / b
    } else {
        -((-a) / b)
    }
}

/// The whole seconds of the duration `secs + nanos / 10^9` (with
/// `0 <= nanos < 10^9`), rounded toward zero.
pub open spec fn whole_seconds(secs: int, nanos: int) -> int {
    if secs < 0 && nanos > 0 {
        secs + 1
    } else {
        secs
    }
}

/// The nanoseconds of that duration beyond its whole seconds, with the sign
/// of the duration.
pub open spec fn subsec_nanos(secs: int, nanos: int) -> int {
    if secs < 0 && nanos > 0 {
        nanos - 1_000_000_000
    } else {
        nanos
    }
}

/// The whole days of the duration, rounded toward zero.
pub open spec fn interval_days(secs: int, nanos: int) -> int {
    trunc_div(whole_seconds(secs, nanos), 86400)
}

/// The microseconds left once the whole days are taken away, rounded toward
/// zero.
pub open spec fn interval_micros(secs: int, nanos: int) -> int {
    let rest = secs - interval_days(secs, nanos) * 86400;
    whole_seconds(rest, nanos) * 1_000_000 + trunc_div(subsec_nanos(rest, nanos), 1000)
}

/// Splits the duration of `secs` seconds plus `nanos` nanoseconds (`nanos`
/// below a second; a negative duration has negative `secs`) into whole days
/// and the microseconds left over, both rounded toward zero, with no months.
pub fn to_pg_interval(secs: i64, nanos: u32) -> (r: PgInterval)
    requires
        nanos < 1_000_000_000,
        i32::MIN <= interval_days(secs as int, nanos as int) <= i32::MAX,
    ensures
        r.months == 0,
        r.days == interval_days(secs as int, nanos as int),
        r.microseconds == interval_micros(secs as int, nanos as int),
{
    let whole: i64 = if secs < 0 && nanos > 0 {
        secs + 1
    } else {
        secs
    };
    let days: i64 = if whole >= 0 {
        (whole as u64 / 86400) as i64
    } else {
        -(((-whole) as u64 / 86400) as i64)
    };
    let rest: i64 = secs - days * 86400;
    let rest_whole: i64 = if rest < 0 && nanos > 0 {
        rest + 1
    } else {
        rest
    };
    let sub_micros: i64 = if rest < 0 && nanos > 0 {
        -(((1_000_000_000 - nanos) / 1000) as i64)
    } else {
        (nanos / 1000) as i64
    };
    PgInterval { months: 0, days: days as i32, microseconds: rest_whole * 1_000_000 + sub_micros }
}

/// The interval holds the whole duration, truncated toward zero to
/// microseconds: whole days, then less than a day's worth of microseconds, all
/// with the duration's sign.
pub proof fn law_interval_keeps_duration(secs: i64, nanos: u32)
    requires
        nanos < 1_000_000_000,
    ensures
        ({
            let days = interval_days(secs as int, nanos as int);
            let micros = interval_micros(secs as int, nanos as int);
            let total = secs * 1_000_000_000 + nanos;
            &&& days * MICROS_PER_DAY + micros == trunc_div(total, 1000)
            &&& -MICROS_PER_DAY < micros < MICROS_PER_DAY
            &&& (total >= 0 ==> days >= 0 && micros >= 0)
            &&& (total < 0 ==> days <= 0 && micros <= 0)
        }),
{
    let s = secs as int;
    let n = nanos as int;
    let days = interval_days(s, n);
    if s >= 0 {
        let q = s / 86400;
        let r = s % 86400;
        assert(days == q);
        assert(s == 86400 * q + r && 0 <= r < 86400);
        assert((s * 1_000_000_000 + n) / 1000 == s * 1_000_000 + n / 1000);
    } else if n == 0 {
        let q = (-s) / 86400;
        let r = (-s) % 86400;
        assert(days == -q);
        assert(-s == 86400 * q + r && 0 <= r < 86400);
        assert((-(s * 1_000_000_000)) / 1000 == -s * 1_000_000);
    } else {
        let q = (-(s + 1)) / 86400;
        let r = (-(s + 1)) % 86400;
        assert(days == -q);
        assert(-(s + 1) == 86400 * q + r && 0 <= r < 86400);
        assert(s - days * 86400 == -(1 + r));
        assert((-(s * 1_000_000_000 + n)) / 1000 == -(s + 1) * 1_000_000 + (1_000_000_000 - n)
            / 1000);
        assert((1_000_000_000 - n) / 1000 <= 999_999);
    }
}

} // verus!
