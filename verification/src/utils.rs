//! Small verified utilities around the command line: a parser for
//! duration strings — an integer followed by one of a fixed set of unit
//! suffixes — and the naming rule for configuration files.

use vstd::prelude::*;

verus! {

/// Why a duration string was rejected; the message is one of two fixed
/// descriptions.
#[derive(Debug)]
pub struct DurationParseError(pub &'static str);

impl DurationParseError {
    pub fn message(&self) -> (r: &'static str)
        ensures
            r@ == self.0@,
    {
        self.0
    }
}

/// A span of time, as a whole number of seconds plus a sub-second rest:
/// the shape `Duration` keeps, as plain values.
#[derive(Clone, Copy, Debug, PartialEq, Eq, Structural)]
pub struct Span {
    pub secs: u64,
    pub nanos: u32,
}

pub const NANOS_PER_SEC: u32 = 1_000_000_000;

pub const NANOS_PER_MILLI: u32 = 1_000_000;

pub const NANOS_PER_MICRO: u32 = 1_000;

pub const MICROS_PER_SEC: u64 = 1_000_000;

pub const MILLIS_PER_SEC: u64 = 1_000;

impl Span {
    /// The sub-second rest never reaches a full second.
    pub open spec fn wf(self) -> bool {
        self.nanos < NANOS_PER_SEC
    }

    /// The whole span as nanoseconds.
    pub open spec fn spec_nanos(self) -> nat {
        (self.secs * (NANOS_PER_SEC as nat) + self.nanos) as nat
    }

    pub fn from_nanos(n: u64) -> (s: Span)
        ensures
            s.wf(),
            s.spec_nanos() == n,
    {
        let s = Span { secs: n / (NANOS_PER_SEC as u64), nanos: (n % (NANOS_PER_SEC as u64)) as u32 };
        proof {
            vstd::arithmetic::div_mod::lemma_fundamental_div_mod(n as int, NANOS_PER_SEC as int);
        }
        s
    }

    pub fn from_micros(n: u64) -> (s: Span)
        ensures
            s.wf(),
            s.spec_nanos() == n * (NANOS_PER_MICRO as nat),
    {
        let s = Span {
            secs: n / MICROS_PER_SEC,
            nanos: ((n % MICROS_PER_SEC) as u32) * NANOS_PER_MICRO,
        };
        proof {
            vstd::arithmetic::div_mod::lemma_fundamental_div_mod(n as int, MICROS_PER_SEC as int);
        }
        s
    }

    pub fn from_millis(n: u64) -> (s: Span)
        ensures
            s.wf(),
            s.spec_nanos() == n * (NANOS_PER_MILLI as nat),
    {
        let s = Span {
            secs: n / MILLIS_PER_SEC,
            nanos: ((n % MILLIS_PER_SEC) as u32) * NANOS_PER_MILLI,
        };
        proof {
            vstd::arithmetic::div_mod::lemma_fundamental_div_mod(n as int, MILLIS_PER_SEC as int);
        }
        s
    }

    pub fn from_secs(n: u64) -> (s: Span)
        ensures
            s.wf(),
            s.spec_nanos() == n * (NANOS_PER_SEC as nat),
    {
        Span { secs: n, nanos: 0 }
    }
}

/// The whitespace stripped from either end of a duration string before
/// parsing: the ASCII blank characters.
pub open spec fn is_space(c: char) -> bool {
    c == ' ' || c == '\t' || c == '\n' || c == '\r' || c == '\u{b}' || c == '\u{c}'
}

pub open spec fn trim_front(s: Seq<char>) -> Seq<char>
    decreases s.len(),
{
    if s.len() > 0 && is_space(s[0]) {
        trim_front(s.subrange(1, s.len() as int))
    } else {
        s
    }
}

pub open spec fn trim_back(s: Seq<char>) -> Seq<char>
    decreases s.len(),
{
    if s.len() > 0 && is_space(s.last()) {
        trim_back(s.drop_last())
    } else {
        s
    }
}

pub open spec fn spec_trim(s: Seq<char>) -> Seq<char> {
    trim_back(trim_front(s))
}

proof fn lemma_trim_front_range(s: Seq<char>, k: int)
    requires
        0 <= k <= s.len(),
        forall|i: int| 0 <= i < k ==> is_space(s[i]),
        k < s.len() ==> !is_space(s[k]),
    ensures
        trim_front(s) =~= s.subrange(k, s.len() as int),
    decreases k,
{
    if k == 0 {
        assert(s.subrange(0, s.len() as int) =~= s);
    } else {
        let tail = s.subrange(1, s.len() as int);
        assert(forall|i: int| 0 <= i < k - 1 ==> is_space(#[trigger] tail[i]));
        lemma_trim_front_range(tail, k - 1);
        assert(tail.subrange(k - 1, tail.len() as int) =~= s.subrange(k, s.len() as int));
    }
}

proof fn lemma_trim_back_range(s: Seq<char>, h: int)
    requires
        0 <= h <= s.len(),
        forall|i: int| h <= i < s.len() ==> is_space(s[i]),
        h > 0 ==> !is_space(s[h - 1]),
    ensures
        trim_back(s) =~= s.subrange(0, h),
    decreases s.len() - h,
{
    if h == s.len() {
        assert(s.subrange(0, h) =~= s);
    } else {
        let front = s.drop_last();
        assert(forall|i: int| h <= i < front.len() ==> is_space(#[trigger] front[i]));
        lemma_trim_back_range(front, h);
        assert(front.subrange(0, h) =~= s.subrange(0, h));
    }
}

pub open spec fn is_digit(c: char) -> bool {
    '0' <= c && c <= '9'
}

pub open spec fn digit_val(c: char) -> nat {
    (c as int - '0' as int) as nat
}

pub open spec fn all_digits(s: Seq<char>) -> bool {
    forall|i: int| 0 <= i < s.len() ==> is_digit(s[i])
}

/// The number a string of decimal digits denotes.
pub open spec fn digits_val(s: Seq<char>) -> nat
    decreases s.len(),
{
    if s.len() == 0 {
        0
    } else {
        digits_val(s.drop_last()) * 10 + digit_val(s.last())
    }
}

proof fn lemma_digits_val_prefix_le(s: Seq<char>, k: int)
    requires
        0 <= k <= s.len(),
    ensures
        digits_val(s.subrange(0, k)) <= digits_val(s),
    decreases s.len() - k,
{
    if k == s.len() {
        assert(s.subrange(0, k) =~= s);
    } else {
        lemma_digits_val_prefix_le(s, k + 1);
        let longer = s.subrange(0, k + 1);
        assert(longer.drop_last() =~= s.subrange(0, k));
    }
}

/// A well-shaped duration string: one or more digits, then one of the
/// unit suffixes `ns`, `μs`, `ms`, `s`.
pub open spec fn duration_shape_ok(t: Seq<char>) -> bool {
    &&& t.len() >= 2
    &&& t.last() == 's'
    &&& {
        let body = t.drop_last();
        if body.last() == 'n' || body.last() == 'μ' || body.last() == 'm' {
            body.len() >= 2 && all_digits(body.drop_last())
        } else {
            all_digits(body)
        }
    }
}

/// The digit part of a well-shaped duration string.
pub open spec fn duration_digits(t: Seq<char>) -> Seq<char> {
    let body = t.drop_last();
    if body.len() > 0 && (body.last() == 'n' || body.last() == 'μ' || body.last() == 'm') {
        body.drop_last()
    } else {
        body
    }
}

/// What one step of the unit suffix is worth, in nanoseconds.
pub open spec fn duration_factor(t: Seq<char>) -> nat {
    let body = t.drop_last();
    if body.len() > 0 && body.last() == 'n' {
        1
    } else if body.len() > 0 && body.last() == 'μ' {
        NANOS_PER_MICRO as nat
    } else if body.len() > 0 && body.last() == 'm' {
        NANOS_PER_MILLI as nat
    } else {
        NANOS_PER_SEC as nat
    }
}

/// A duration string is accepted exactly when, after trimming, it is well
/// shaped and its number fits into 64 bits.
pub open spec fn spec_duration_valid(t: Seq<char>) -> bool {
    duration_shape_ok(t) && digits_val(duration_digits(t)) <= u64::MAX
}

/// The time a valid duration string denotes, in nanoseconds.
pub open spec fn spec_duration_nanos(t: Seq<char>) -> nat {
    digits_val(duration_digits(t)) * duration_factor(t)
}

fn is_space_char(c: char) -> (r: bool)
    ensures
        r == is_space(c),
{
    c == ' ' || c == '\t' || c == '\n' || c == '\r' || c == '\u{b}' || c == '\u{c}'
}

/// Reads a duration such as `250ms`: whitespace is trimmed from either
/// end, then a decimal number is expected, then one of the unit suffixes
/// `ns`, `μs`, `ms` or `s`, and nothing else. The result is the span the
/// string denotes; a string of any other shape, or one whose number does
/// not fit into 64 bits, is rejected with a description.
pub fn parse_duration(s: &str) -> (r: Result<Span, DurationParseError>)
    ensures
        match r {
            Ok(sp) => spec_duration_valid(spec_trim(s@)) && sp.wf() && sp.spec_nanos()
                == spec_duration_nanos(spec_trim(s@)),
            Err(_) => !spec_duration_valid(spec_trim(s@)),
        },
{
    let n: usize = s.unicode_len();
    let mut lo: usize = 0;
    loop
        invariant_except_break
            lo <= n,
            n == s@.len(),
            forall|i: int| 0 <= i < lo ==> is_space(s@[i]),
        ensures
            lo <= n,
            n == s@.len(),
            forall|i: int| 0 <= i < lo ==> is_space(s@[i]),
            lo < n ==> !is_space(s@[lo as int]),
        decreases n - lo,
    {
        if lo >= n {
            break ;
        }
        if !is_space_char(s.get_char(lo)) {
            break ;
        }
        lo += 1;
    }
    let mut hi: usize = n;
    loop
        invariant_except_break
            lo <= hi <= n,
            n == s@.len(),
            forall|i: int| hi <= i < n ==> is_space(s@[i]),
        ensures
            lo <= hi <= n,
            n == s@.len(),
            forall|i: int| hi <= i < n ==> is_space(s@[i]),
            hi > lo ==> !is_space(s@[hi - 1]),
        decreases hi,
    {
        if hi <= lo {
            break ;
        }
        if !is_space_char(s.get_char(hi - 1)) {
            break ;
        }
        hi -= 1;
    }
    let ghost t = spec_trim(s@);
    proof {
        lemma_trim_front_range(s@, lo as int);
        let t0 = s@.subrange(lo as int, n as int);
        lemma_trim_back_range(t0, hi - lo as int);
        assert(t0.subrange(0, hi - lo as int) =~= s@.subrange(lo as int, hi as int));
        assert(t =~= s@.subrange(lo as int, hi as int));
    }

    if hi - lo < 2 {
        return Err(DurationParseError("String did not match expected shape of <number><metric>."));
    }
    if s.get_char(hi - 1) != 's' {
        return Err(DurationParseError("String did not match expected shape of <number><metric>."));
    }
    let u = s.get_char(hi - 2);
    let unit_is_named = u == 'n' || u == 'μ' || u == 'm';
    let dhi: usize = if unit_is_named {
        hi - 2
    } else {
        hi - 1
    };
    proof {
        assert(t.drop_last() =~= s@.subrange(lo as int, hi - 1));
        if unit_is_named {
            assert(t.drop_last().drop_last() =~= s@.subrange(lo as int, hi - 2));
        }
        assert(duration_digits(t) =~= s@.subrange(lo as int, dhi as int));
    }
    if dhi == lo {
        assert(!duration_shape_ok(t));
        return Err(DurationParseError("String did not match expected shape of <number><metric>."));
    }

    let ghost digits = s@.subrange(lo as int, dhi as int);
    proof {
        assert(digits == duration_digits(t));
        assert(duration_shape_ok(t) ==> all_digits(digits));
    }
    let mut v: u64 = 0;
    let mut i: usize = lo;
    while i < dhi
        invariant
            lo <= i <= dhi <= hi <= n,
            n == s@.len(),
            t == spec_trim(s@),
            digits == s@.subrange(lo as int, dhi as int),
            digits == duration_digits(t),
            duration_shape_ok(t) ==> all_digits(digits),
            all_digits(s@.subrange(lo as int, i as int)),
            v == digits_val(s@.subrange(lo as int, i as int)),
        decreases dhi - i,
    {
        let c = s.get_char(i);
        proof {
            assert(s@.subrange(lo as int, i + 1).drop_last() =~= s@.subrange(lo as int, i as int));
            assert(s@.subrange(lo as int, i + 1).last() == s@[i as int]);
        }
        if !(c >= '0' && c <= '9') {
            proof {
                assert(digits[i - lo] == s@[i as int]);
                assert(!all_digits(digits));
            }
            return Err(DurationParseError("String did not match expected shape of <number><metric>."));
        }
        let d: u64 = (c as u32 - '0' as u32) as u64;
        if v > (u64::MAX - d) / 10 {
            proof {
                vstd::arithmetic::div_mod::lemma_fundamental_div_mod(
                    (u64::MAX - d) as int,
                    10int,
                );
                assert(digits_val(s@.subrange(lo as int, i + 1)) > u64::MAX);
                assert(s@.subrange(lo as int, i + 1) =~= digits.subrange(0, i + 1 - lo));
                lemma_digits_val_prefix_le(digits, i + 1 - lo);
            }
            return Err(DurationParseError("Number is too large to be read as a 64-bit value."));
        }
        proof {
            vstd::arithmetic::div_mod::lemma_fundamental_div_mod((u64::MAX - d) as int, 10int);
        }
        v = v * 10 + d;
        i += 1;
    }
    proof {
        assert(s@.subrange(lo as int, dhi as int) =~= digits);
        assert(duration_shape_ok(t));
    }

    let sp = if unit_is_named {
        if u == 'n' {
            Span::from_nanos(v)
        } else if u == 'μ' {
            Span::from_micros(v)
        } else {
            Span::from_millis(v)
        }
    } else {
        Span::from_secs(v)
    };
    Ok(sp)
}

/// A path names a RON configuration file: it ends in `.ron`, and the dot
/// follows at least one character of file name, not a path separator.
pub open spec fn spec_ron_config_name(s: Seq<char>) -> bool {
    &&& s.len() >= 5
    &&& s[s.len() - 5] != '/'
    &&& s[s.len() - 4] == '.'
    &&& s[s.len() - 3] == 'r'
    &&& s[s.len() - 2] == 'o'
    &&& s[s.len() - 1] == 'n'
}

/// The naming rule for configuration files, checked before anything is
/// read: the extension must say RON. Whether a file exists at the path
/// is for the caller and its file system to decide.
pub fn is_ron_config_name(s: &str) -> (r: bool)
    ensures
        r == spec_ron_config_name(s@),
{
    let n: usize = s.unicode_len();
    if n < 5 {
        return false;
    }
    s.get_char(n - 5) != '/' && s.get_char(n - 4) == '.' && s.get_char(n - 3) == 'r' && s.get_char(
        n - 2,
    ) == 'o' && s.get_char(n - 1) == 'n'
}

} // verus!
