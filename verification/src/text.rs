//! Character-level string helpers shared by the features.

use vstd::prelude::*;

verus! {

/// Appends one character to a string (std `String::push`).
#[verifier::external_body]
pub(crate) fn push_char(s: &mut String, c: char)
    ensures
        final(s)@ == old(s)@.push(c),
{
    s.push(c);
}

/// Builds an owned string holding exactly the given characters.
pub fn string_from_chars(cs: &[char]) -> (r: String)
    ensures
        r@ == cs@,
{
    let mut r = String::new();
    let mut i: usize = 0;
    while i < cs.len()
        invariant
            i <= cs@.len(),
            r@ == cs@.subrange(0, i as int),
        decreases cs@.len() - i,
    {
        push_char(&mut r, cs[i]);
        proof {
            assert(cs@.subrange(0, i as int + 1) =~= cs@.subrange(0, i as int).push(cs@[i as int]));
        }
        i = i + 1;
    }
    proof {
        assert(cs@.subrange(0, cs@.len() as int) =~= cs@);
    }
    r
}

/// The characters of a string slice, in order.
pub fn chars_of(s: &str) -> (r: Vec<char>)
    ensures
        r@ == s@,
{
    let n = s.unicode_len();
    let mut r: Vec<char> = Vec::new();
    let mut i: usize = 0;
    while i < n
        invariant
            n == s@.len(),
            i <= n,
            r@ == s@.subrange(0, i as int),
        decreases n - i,
    {
        let c = s.get_char(i);
        r.push(c);
        proof {
            assert(s@.subrange(0, i as int + 1) =~= s@.subrange(0, i as int).push(c));
        }
        i = i + 1;
    }
    proof {
        assert(s@.subrange(0, n as int) =~= s@);
    }
    r
}


// ---------------------------------------------------------------------------
// Decimal digits
// ---------------------------------------------------------------------------

/// Whether `c` is an ASCII decimal digit.
pub open spec fn is_digit(c: char) -> bool {
    48 <= (c as u32) && (c as u32) <= 57
}

/// The value of an ASCII decimal digit.
pub open spec fn digit_val(c: char) -> nat {
    ((c as u32) - 48) as nat
}

/// The ASCII digit character for a value below ten.
pub open spec fn digit_char(d: nat) -> char {
    ((48 + d) as u32) as char
}

/// Every character of `s` is an ASCII decimal digit.
pub open spec fn all_digits(s: Seq<char>) -> bool {
    forall|i: int| 0 <= i < s.len() ==> is_digit(#[trigger] s[i])
}

/// The number that a run of decimal digits denotes (most significant first).
pub open spec fn digits_value(s: Seq<char>) -> nat
    decreases s.len(),
{
    if s.len() == 0 {
        0
    } else {
        digits_value(s.drop_last()) * 10 + digit_val(s.last())
    }
}

/// The decimal representation of `n`, without leading zeros.
pub open spec fn decimal(n: nat) -> Seq<char>
    decreases n,
{
    if n < 10 {
        seq![digit_char(n)]
    } else {
        decimal(n / 10).push(digit_char(n % 10))
    }
}

/// The decimal representation of `n`, left-padded with zeros to at least two digits
/// (the `{:02}` format).
pub open spec fn decimal_pad2(n: nat) -> Seq<char> {
    if n < 10 {
        seq!['0'].push(digit_char(n))
    } else {
        decimal(n)
    }
}

/// What `u64::from_str` gives for `s`: an optional `+` sign, then one or more
/// decimal digits whose value fits in a `u64`.
pub open spec fn spec_parse_u64(s: Seq<char>) -> Option<u64> {
    let body = if s.len() > 0 && s[0] == '+' {
        s.drop_first()
    } else {
        s
    };
    if body.len() > 0 && all_digits(body) && digits_value(body) <= u64::MAX {
        Some(digits_value(body) as u64)
    } else {
        None
    }
}

pub proof fn lemma_digit_char(d: nat)
    requires
        d < 10,
    ensures
        is_digit(digit_char(d)),
        digit_val(digit_char(d)) == d,
{
}

/// The decimal representation of a number is a non-empty run of digits denoting it.
pub proof fn lemma_decimal(n: nat)
    ensures
        decimal(n).len() > 0,
        all_digits(decimal(n)),
        digits_value(decimal(n)) == n,
    decreases n,
{
    if n < 10 {
        lemma_digit_char(n);
        let d = decimal(n);
        assert(d.drop_last() =~= Seq::<char>::empty());
        assert(digits_value(d.drop_last()) == 0);
        assert(d.last() == digit_char(n));
        assert(digits_value(d) == digits_value(d.drop_last()) * 10 + digit_val(d.last()));
    } else {
        lemma_decimal(n / 10);
        lemma_digit_char(n % 10);
        let d = decimal(n);
        assert(d.drop_last() =~= decimal(n / 10));
        assert(d.last() == digit_char(n % 10));
        assert(digits_value(d) == digits_value(d.drop_last()) * 10 + digit_val(d.last()));
        assert((n / 10) * 10 + n % 10 == n);
        assert forall|i: int| 0 <= i < d.len() implies is_digit(#[trigger] d[i]) by {
            if i < d.len() - 1 {
                assert(d[i] == decimal(n / 10)[i]);
            }
        }
    }
}

/// The zero-padded representation also denotes the number.
pub proof fn lemma_decimal_pad2(n: nat)
    ensures
        decimal_pad2(n).len() >= 2,
        all_digits(decimal_pad2(n)),
        digits_value(decimal_pad2(n)) == n,
{
    lemma_decimal(n);
    if n < 10 {
        lemma_digit_char(n);
        let d = decimal_pad2(n);
        assert(d.drop_last() =~= seq!['0']);
        let z = seq!['0'];
        assert(z.drop_last() =~= Seq::<char>::empty());
        assert(digits_value(z.drop_last()) == 0);
        assert(digit_val(z.last()) == 0);
        assert(digits_value(z) == digits_value(z.drop_last()) * 10 + digit_val(z.last()));
        assert(digits_value(d) == digits_value(d.drop_last()) * 10 + digit_val(d.last()));
        assert forall|i: int| 0 <= i < d.len() implies is_digit(#[trigger] d[i]) by {}
    } else {
        assert(decimal(n).len() >= 2) by {
            assert(decimal(n) =~= decimal(n / 10).push(digit_char(n % 10)));
            lemma_decimal(n / 10);
        }
    }
}

/// Appends the decimal representation of `n`.
pub fn push_decimal(s: &mut String, n: u64)
    ensures
        final(s)@ == old(s)@ + decimal(n as nat),
    decreases n,
{
    if n >= 10 {
        push_decimal(s, n / 10);
    }
    let d: u8 = (n % 10) as u8;
    let c: char = (48u8 + d) as char;
    push_char(s, c);
    proof {
        if n >= 10 {
            assert(decimal(n as nat) == decimal((n / 10) as nat).push(digit_char((n % 10) as nat)));
        }
    }
}


/// A prefix of a run of digits never denotes more than the whole run.
pub proof fn lemma_digits_prefix(t: Seq<char>, j: int)
    requires
        0 <= j <= t.len(),
    ensures
        digits_value(t) >= digits_value(t.take(j)),
    decreases t.len(),
{
    if j < t.len() {
        lemma_digits_prefix(t.drop_last(), j);
        assert(t.drop_last().take(j) =~= t.take(j));
    } else {
        assert(t.take(j) =~= t);
    }
}

/// Parses an unsigned decimal number the way `u64::from_str` does.
pub fn parse_u64(s: &str) -> (r: Option<u64>)
    ensures
        r == spec_parse_u64(s@),
{
    let cs = chars_of(s);
    let n = cs.len();
    let start: usize = if n > 0 && cs[0] == '+' {
        1
    } else {
        0
    };
    let ghost body = if s@.len() > 0 && s@[0] == '+' {
        s@.drop_first()
    } else {
        s@
    };
    proof {
        assert(body =~= s@.subrange(start as int, n as int));
    }
    if start == n {
        return None;
    }
    let mut acc: u64 = 0;
    let mut i: usize = start;
    while i < n
        invariant
            cs@ == s@,
            n == cs@.len(),
            start <= i <= n,
            body == s@.subrange(start as int, n as int),
            body == (if s@.len() > 0 && s@[0] == '+' {
                s@.drop_first()
            } else {
                s@
            }),
            all_digits(body.take(i - start)),
            acc == digits_value(body.take(i - start)),
        decreases n - i,
    {
        let c = cs[i];
        #[verifier::truncate]
        let u = c as u32;
        let ghost k = (i - start) as int;
        proof {
            assert(body[k] == c);
            assert(body.take(k + 1).drop_last() =~= body.take(k));
            assert(body.take(k + 1).last() == c);
        }
        if u < 48 || u > 57 {
            proof {
                assert(!is_digit(body[k]));
                assert(!all_digits(body));
                assert(spec_parse_u64(s@) is None);
            }
            return None;
        }
        let d: u64 = (u - 48) as u64;
        let next = acc.checked_mul(10);
        match next {
            None => {
                proof {
                    assert(digits_value(body.take(k + 1)) == acc * 10 + d);
                    if all_digits(body) {
                        lemma_digits_prefix(body, k + 1);
                    }
                }
                return None;
            },
            Some(m) => {
                let next2 = m.checked_add(d);
                match next2 {
                    None => {
                        proof {
                            assert(digits_value(body.take(k + 1)) == acc * 10 + d);
                            if all_digits(body) {
                                lemma_digits_prefix(body, k + 1);
                            }
                            assert(spec_parse_u64(s@) is None);
                        }
                        return None;
                    },
                    Some(v) => {
                        proof {
                            assert(digits_value(body.take(k + 1)) == acc * 10 + d);
                            assert forall|j: int| 0 <= j < k + 1 implies is_digit(
                                #[trigger] body.take(k + 1)[j],
                            ) by {
                                if j < k {
                                    assert(body.take(k + 1)[j] == body.take(k)[j]);
                                }
                            }
                        }
                        acc = v;
                    },
                }
            },
        }
        i = i + 1;
    }
    proof {
        assert(body.take(n - start) =~= body);
    }
    Some(acc)
}


// ---------------------------------------------------------------------------
// Searching
// ---------------------------------------------------------------------------

/// `p` occurs in `s` starting at index `i`.
pub open spec fn occurs_at(s: Seq<char>, p: Seq<char>, i: int) -> bool {
    0 <= i && i + p.len() <= s.len() && s.subrange(i, i + p.len()) =~= p
}

/// The first index at or after `k` where `p` occurs in `s`.
pub open spec fn find_from(s: Seq<char>, p: Seq<char>, k: int) -> Option<int>
    decreases s.len() - k,
{
    if k < 0 || k + p.len() > s.len() {
        None
    } else if occurs_at(s, p, k) {
        Some(k)
    } else {
        find_from(s, p, k + 1)
    }
}

/// The first index where `p` occurs in `s` (`str::find`).
pub open spec fn find_first(s: Seq<char>, p: Seq<char>) -> Option<int> {
    find_from(s, p, 0)
}

/// `s` contains `p` (`str::contains`).
pub open spec fn contains_seq(s: Seq<char>, p: Seq<char>) -> bool {
    find_first(s, p) is Some
}

/// `s` starts with `p` (`str::starts_with`).
pub open spec fn starts_with_seq(s: Seq<char>, p: Seq<char>) -> bool {
    p.len() <= s.len() && s.take(p.len() as int) =~= p
}

/// The first piece of `s` split at `p` (`s.split(p).next()`).
pub open spec fn split_first(s: Seq<char>, p: Seq<char>) -> Seq<char> {
    match find_first(s, p) {
        Some(i) => s.take(i),
        None => s,
    }
}

/// What follows the first occurrence of `p` in `s`, if it occurs.
pub open spec fn after_first(s: Seq<char>, p: Seq<char>) -> Option<Seq<char>> {
    match find_first(s, p) {
        Some(i) => Some(s.skip(i + p.len())),
        None => None,
    }
}

/// The second piece of `s` split at `p` (`s.split(p).nth(1)`).
pub open spec fn split_second(s: Seq<char>, p: Seq<char>) -> Option<Seq<char>> {
    match after_first(s, p) {
        Some(rest) => Some(split_first(rest, p)),
        None => None,
    }
}

/// `s` with every non-overlapping occurrence of `from`, left to right, replaced by `to`
/// (`str::replace`, for a non-empty pattern).
pub open spec fn replace_all(s: Seq<char>, from: Seq<char>, to: Seq<char>) -> Seq<char>
    decreases s.len(),
{
    if from.len() == 0 {
        s
    } else {
        match find_first(s, from) {
            Some(i) => if 0 <= i && i + from.len() <= s.len() {
                s.take(i) + to + replace_all(s.skip(i + from.len()), from, to)
            } else {
                s
            },
            None => s,
        }
    }
}

/// A found index is an occurrence, with none before it.
pub proof fn lemma_find_from(s: Seq<char>, p: Seq<char>, k: int)
    requires
        0 <= k,
    ensures
        match find_from(s, p, k) {
            Some(i) => k <= i && occurs_at(s, p, i) && forall|j: int|
                k <= j < i ==> !occurs_at(s, p, j),
            None => forall|j: int| k <= j ==> !occurs_at(s, p, j),
        },
    decreases s.len() - k,
{
    if k + p.len() > s.len() {
    } else if occurs_at(s, p, k) {
    } else {
        lemma_find_from(s, p, k + 1);
    }
}

/// Whether `p` occurs in `s` at index `i`.
fn matches_at(s: &[char], p: &[char], i: usize) -> (r: bool)
    ensures
        r == occurs_at(s@, p@, i as int),
{
    if i > s.len() || p.len() > s.len() - i {
        return false;
    }
    let mut j: usize = 0;
    while j < p.len()
        invariant
            i + p@.len() <= s@.len(),
            j <= p@.len(),
            forall|t: int| 0 <= t < j ==> s@[i + t] == p@[t],
        decreases p@.len() - j,
    {
        assert(i + j < s.len());
        if s[i + j] != p[j] {
            proof {
                assert(s@.subrange(i as int, i + p@.len())[j as int] != p@[j as int]);
            }
            return false;
        }
        j = j + 1;
    }
    proof {
        assert(s@.subrange(i as int, i + p@.len()) =~= p@);
    }
    true
}

/// The first index at or after `k` where `p` occurs in `s`.
fn find_chars(s: &[char], p: &[char], k: usize) -> (r: Option<usize>)
    ensures
        match r {
            Some(i) => find_from(s@, p@, k as int) == Some(i as int),
            None => find_from(s@, p@, k as int) is None,
        },
{
    let mut j: usize = k;
    while j <= s.len() && p.len() <= s.len() - j
        invariant
            k <= j,
            find_from(s@, p@, k as int) == find_from(s@, p@, j as int),
        decreases s@.len() + 1 - j,
    {
        if matches_at(s, p, j) {
            return Some(j);
        }
        j = j + 1;
    }
    None
}

/// The first index where `p` occurs in `s`.
pub fn find_str(s: &str, p: &str) -> (r: Option<usize>)
    ensures
        match r {
            Some(i) => find_first(s@, p@) == Some(i as int),
            None => find_first(s@, p@) is None,
        },
{
    let cs = chars_of(s);
    let ps = chars_of(p);
    find_chars(cs.as_slice(), ps.as_slice(), 0)
}

/// Whether `s` contains `p`.
pub fn contains_str(s: &str, p: &str) -> (r: bool)
    ensures
        r == contains_seq(s@, p@),
{
    find_str(s, p).is_some()
}

/// Whether `s` starts with `p`.
pub fn starts_with_str(s: &str, p: &str) -> (r: bool)
    ensures
        r == starts_with_seq(s@, p@),
{
    let cs = chars_of(s);
    let ps = chars_of(p);
    let r = matches_at(cs.as_slice(), ps.as_slice(), 0);
    proof {
        assert(s@.take(p@.len() as int) =~= s@.subrange(0, p@.len() as int));
    }
    r
}

/// Whether two strings hold the same characters (`a == b`).
pub fn eq_str(a: &str, b: &str) -> (r: bool)
    ensures
        r == (a@ == b@),
{
    if a.unicode_len() != b.unicode_len() {
        return false;
    }
    let r = starts_with_str(a, b);
    proof {
        if r {
            assert(a@.take(b@.len() as int) =~= a@);
        }
    }
    r
}

/// Starting with a one-character pattern means having that first character.
pub proof fn lemma_starts_with_char(s: Seq<char>, c: char)
    ensures
        starts_with_seq(s, seq![c]) <==> (s.len() > 0 && s[0] == c),
{
    if s.len() > 0 && s[0] == c {
        assert(s.take(1) =~= seq![c]);
    }
    if starts_with_seq(s, seq![c]) {
        assert(s.take(1)[0] == s[0]);
    }
}

/// `s` without the prefix `p`, when it starts with it (`str::strip_prefix`).
pub fn strip_prefix_str<'a>(s: &'a str, p: &str) -> (r: Option<&'a str>)
    ensures
        match r {
            Some(rest) => starts_with_seq(s@, p@) && rest@ == s@.skip(p@.len() as int),
            None => !starts_with_seq(s@, p@),
        },
{
    if starts_with_str(s, p) {
        let n = s.unicode_len();
        let m = p.unicode_len();
        let rest = s.substring_char(m, n);
        proof {
            assert(rest@ =~= s@.skip(p@.len() as int));
        }
        Some(rest)
    } else {
        None
    }
}

/// The first piece of `s` split at `p` (`s.split(p).next()`).
pub fn split_first_str<'a>(s: &'a str, p: &str) -> (r: &'a str)
    ensures
        r@ == split_first(s@, p@),
{
    match find_str(s, p) {
        Some(i) => {
            proof {
                lemma_find_from(s@, p@, 0);
            }
            s.substring_char(0, i)
        },
        None => s,
    }
}

/// What follows the first occurrence of `p` in `s`, if it occurs.
pub fn after_first_str<'a>(s: &'a str, p: &str) -> (r: Option<&'a str>)
    ensures
        match r {
            Some(rest) => after_first(s@, p@) == Some(rest@),
            None => after_first(s@, p@) is None,
        },
{
    match find_str(s, p) {
        Some(i) => {
            proof {
                lemma_find_from(s@, p@, 0);
            }
            let n = s.unicode_len();
            let m = p.unicode_len();
            let rest = s.substring_char(i + m, n);
            proof {
                assert(rest@ =~= s@.skip(i + p@.len()));
            }
            Some(rest)
        },
        None => None,
    }
}

/// The second piece of `s` split at `p` (`s.split(p).nth(1)`).
pub fn split_second_str<'a>(s: &'a str, p: &str) -> (r: Option<&'a str>)
    ensures
        match r {
            Some(piece) => split_second(s@, p@) == Some(piece@),
            None => split_second(s@, p@) is None,
        },
{
    match after_first_str(s, p) {
        Some(rest) => Some(split_first_str(rest, p)),
        None => None,
    }
}

/// `s` with every occurrence of the non-empty pattern `from` replaced by `to`
/// (`str::replace`).
pub fn replace_str(s: &str, from: &str, to: &str) -> (r: String)
    requires
        from@.len() > 0,
    ensures
        r@ == replace_all(s@, from@, to@),
{
    let mut out = String::new();
    let mut rest: &str = s;
    loop
        invariant
            from@.len() > 0,
            out@ + replace_all(rest@, from@, to@) == replace_all(s@, from@, to@),
        decreases rest@.len(),
    {
        match find_str(rest, from) {
            Some(i) => {
                proof {
                    lemma_find_from(rest@, from@, 0);
                }
                let n = rest.unicode_len();
                let m = from.unicode_len();
                let head = rest.substring_char(0, i);
                let tail = rest.substring_char(i + m, n);
                let ghost old_out = out@;
                let ghost old_rest = rest@;
                out.append(head);
                out.append(to);
                proof {
                    assert(head@ =~= old_rest.take(i as int));
                    assert(tail@ =~= old_rest.skip(i + from@.len()));
                    assert(replace_all(old_rest, from@, to@) == old_rest.take(i as int) + to@
                        + replace_all(tail@, from@, to@));
                    assert(out@ + replace_all(tail@, from@, to@) =~= old_out + replace_all(
                        old_rest,
                        from@,
                        to@,
                    ));
                }
                rest = tail;
            },
            None => {
                out.append(rest);
                return out;
            },
        }
    }
}

// ---------------------------------------------------------------------------
// Whitespace
// ---------------------------------------------------------------------------

/// Unicode `White_Space` (what `char::is_whitespace` tests).
pub open spec fn is_ws(c: char) -> bool {
    let u = c as u32;
    (9 <= u && u <= 13) || u == 32 || u == 0x85 || u == 0xA0 || u == 0x1680 || (0x2000 <= u && u
        <= 0x200A) || u == 0x2028 || u == 0x2029 || u == 0x202F || u == 0x205F || u == 0x3000
}

/// `s` without its leading whitespace.
pub open spec fn trim_start(s: Seq<char>) -> Seq<char>
    decreases s.len(),
{
    if s.len() > 0 && is_ws(s[0]) {
        trim_start(s.drop_first())
    } else {
        s
    }
}

/// `s` without its trailing whitespace.
pub open spec fn trim_end(s: Seq<char>) -> Seq<char>
    decreases s.len(),
{
    if s.len() > 0 && is_ws(s.last()) {
        trim_end(s.drop_last())
    } else {
        s
    }
}

/// `s` without leading and trailing whitespace (`str::trim`).
pub open spec fn spec_trim(s: Seq<char>) -> Seq<char> {
    trim_end(trim_start(s))
}

/// Whether a character has the Unicode `White_Space` property.
pub fn is_ws_char(c: char) -> (r: bool)
    ensures
        r == is_ws(c),
{
    let u = c as u32;
    (9 <= u && u <= 13) || u == 32 || u == 0x85 || u == 0xA0 || u == 0x1680 || (0x2000 <= u && u
        <= 0x200A) || u == 0x2028 || u == 0x2029 || u == 0x202F || u == 0x205F || u == 0x3000
}

/// Dropping leading whitespace up to the first other character (or the end).
proof fn lemma_trim_start(s: Seq<char>, a: int)
    requires
        0 <= a <= s.len(),
        forall|j: int| 0 <= j < a ==> is_ws(#[trigger] s[j]),
        a == s.len() || !is_ws(s[a]),
    ensures
        trim_start(s) == s.skip(a),
    decreases a,
{
    if a == 0 {
        assert(s.skip(0) =~= s);
    } else {
        assert(is_ws(s[0]));
        let t = s.drop_first();
        assert forall|j: int| 0 <= j < a - 1 implies is_ws(#[trigger] t[j]) by {
            assert(t[j] == s[j + 1]);
        }
        if a < s.len() {
            assert(t[a - 1] == s[a]);
        }
        lemma_trim_start(t, a - 1);
        assert(t.skip(a - 1) =~= s.skip(a));
    }
}

/// Dropping trailing whitespace back to the last other character (or the
/// start).
proof fn lemma_trim_end(t: Seq<char>, b: int)
    requires
        0 <= b <= t.len(),
        forall|j: int| b <= j < t.len() ==> is_ws(#[trigger] t[j]),
        b == 0 || !is_ws(t[b - 1]),
    ensures
        trim_end(t) == t.take(b),
    decreases t.len() - b,
{
    if b == t.len() {
        assert(t.take(b) =~= t);
    } else {
        assert(is_ws(t.last()));
        let u = t.drop_last();
        assert forall|j: int| b <= j < u.len() implies is_ws(#[trigger] u[j]) by {
            assert(u[j] == t[j]);
        }
        if b > 0 {
            assert(u[b - 1] == t[b - 1]);
        }
        lemma_trim_end(u, b);
        assert(u.take(b) =~= t.take(b));
    }
}

/// `str::trim`: `s` without its leading and trailing characters with the
/// Unicode `White_Space` property.
pub fn trim_str(s: &str) -> (r: &str)
    ensures
        r@ == spec_trim(s@),
{
    let cs = chars_of(s);
    let n = cs.len();
    let mut a: usize = 0;
    while a < n && is_ws_char(cs[a])
        invariant
            cs@ == s@,
            n == s@.len(),
            a <= n,
            forall|j: int| 0 <= j < a ==> is_ws(#[trigger] s@[j]),
        decreases n - a,
    {
        a = a + 1;
    }
    let mut b: usize = n;
    while b > a && is_ws_char(cs[b - 1])
        invariant
            cs@ == s@,
            n == s@.len(),
            a <= b <= n,
            forall|j: int| b <= j < n ==> is_ws(#[trigger] s@[j]),
        decreases b,
    {
        b = b - 1;
    }
    proof {
        lemma_trim_start(s@, a as int);
        let t = s@.skip(a as int);
        assert forall|j: int| b - a <= j < t.len() implies is_ws(#[trigger] t[j]) by {
            assert(t[j] == s@[j + a]);
        }
        if b > a {
            assert(t[b - a - 1] == s@[b - 1]);
        }
        lemma_trim_end(t, b - a);
        assert(t.take(b - a) =~= s@.subrange(a as int, b as int));
    }
    s.substring_char(a, b)
}

/// A string holding `a` followed by `b`.
pub fn concat2(a: &str, b: &str) -> (r: String)
    ensures
        r@ == a@ + b@,
{
    let mut r = String::new();
    r.append(a);
    r.append(b);
    proof {
        assert(r@ =~= a@ + b@);
    }
    r
}

/// An owned copy of `s`.
pub fn to_owned_str(s: &str) -> (r: String)
    ensures
        r@ == s@,
{
    let mut r = String::new();
    r.append(s);
    proof {
        assert(r@ =~= s@);
    }
    r
}

/// The decimal representation of `n` as a string (`n.to_string()`).
pub fn u64_to_string(n: u64) -> (r: String)
    ensures
        r@ == decimal(n as nat),
{
    let mut r = String::new();
    push_decimal(&mut r, n);
    proof {
        assert(r@ =~= decimal(n as nat));
    }
    r
}


/// The decimal representation of a signed number.
pub open spec fn signed_decimal(n: int) -> Seq<char> {
    if n < 0 {
        "-"@ + decimal((-n) as nat)
    } else {
        decimal(n as nat)
    }
}

/// Appends the decimal representation of a signed number.
pub fn push_signed_decimal(s: &mut String, n: i64)
    ensures
        final(s)@ == old(s)@ + signed_decimal(n as int),
{
    if n < 0 {
        s.append("-");
        let m: u64 = (0i128 - n as i128) as u64;
        push_decimal(s, m);
    } else {
        push_decimal(s, n as u64);
    }
}

/// A character with ASCII upper-case letters mapped to lower case
/// (`char::to_ascii_lowercase`).
pub open spec fn ascii_lower_char(c: char) -> char {
    if 'A' <= c && c <= 'Z' {
        ((c as u32) + 32) as char
    } else {
        c
    }
}

/// `s` with ASCII letters in lower case (`str::to_ascii_lowercase`).
pub open spec fn ascii_lower(s: Seq<char>) -> Seq<char> {
    s.map_values(|c: char| ascii_lower_char(c))
}

/// Lower-cases the ASCII letters of a string.
pub fn to_ascii_lowercase(s: &str) -> (r: String)
    ensures
        r@ == ascii_lower(s@),
{
    let cs = chars_of(s);
    let mut out: Vec<char> = Vec::new();
    let mut i: usize = 0;
    while i < cs.len()
        invariant
            i <= cs@.len(),
            cs@ == s@,
            out@ == ascii_lower(s@.take(i as int)),
        decreases cs@.len() - i,
    {
        let c = cs[i];
        let l: char = if 'A' <= c && c <= 'Z' {
            ((c as u8) + 32) as char
        } else {
            c
        };
        proof {
            if 'A' <= c && c <= 'Z' {
                assert((c as u8) as u32 == c as u32);
            }
            assert(ascii_lower(s@.take(i as int + 1)) =~= ascii_lower(s@.take(i as int)).push(
                ascii_lower_char(c),
            ));
        }
        out.push(l);
        i = i + 1;
    }
    proof {
        assert(s@.take(s@.len() as int) =~= s@);
    }
    string_from_chars(out.as_slice())
}

/// The pieces of `s` split at every occurrence of the non-empty pattern `p`
/// (`s.split(p)`).
pub open spec fn split_all(s: Seq<char>, p: Seq<char>) -> Seq<Seq<char>>
    decreases s.len(),
{
    if p.len() == 0 {
        seq![s]
    } else {
        match find_first(s, p) {
            Some(i) => if 0 <= i && i + p.len() <= s.len() {
                seq![s.take(i)] + split_all(s.skip(i + p.len()), p)
            } else {
                seq![s]
            },
            None => seq![s],
        }
    }
}

/// The views of a sequence of string slices.
pub open spec fn str_views(v: Seq<&str>) -> Seq<Seq<char>> {
    v.map_values(|x: &str| x@)
}

/// Splits `s` at every occurrence of the non-empty pattern `p` (`s.split(p).collect()`).
pub fn split_all_str<'a>(s: &'a str, p: &str) -> (r: Vec<&'a str>)
    requires
        p@.len() > 0,
    ensures
        str_views(r@) == split_all(s@, p@),
{
    let mut out: Vec<&'a str> = Vec::new();
    let mut rest: &'a str = s;
    loop
        invariant
            p@.len() > 0,
            str_views(out@) + split_all(rest@, p@) == split_all(s@, p@),
        decreases rest@.len(),
    {
        match find_str(rest, p) {
            Some(i) => {
                proof {
                    lemma_find_from(rest@, p@, 0);
                }
                let n = rest.unicode_len();
                let m = p.unicode_len();
                let head = rest.substring_char(0, i);
                let tail = rest.substring_char(i + m, n);
                let ghost old_out = str_views(out@);
                let ghost old_rest = rest@;
                out.push(head);
                proof {
                    assert(head@ =~= old_rest.take(i as int));
                    assert(tail@ =~= old_rest.skip(i + p@.len()));
                    assert(str_views(out@) =~= old_out.push(head@));
                    assert(split_all(old_rest, p@) == seq![old_rest.take(i as int)] + split_all(
                        tail@,
                        p@,
                    ));
                    assert(str_views(out@) + split_all(tail@, p@) =~= old_out + split_all(
                        old_rest,
                        p@,
                    ));
                }
                rest = tail;
            },
            None => {
                let ghost old_out = str_views(out@);
                out.push(rest);
                proof {
                    assert(str_views(out@) =~= old_out.push(rest@));
                    assert(split_all(rest@, p@) == seq![rest@]);
                    assert(str_views(out@) =~= old_out + split_all(rest@, p@));
                }
                return out;
            },
        }
    }
}

} // verus!
