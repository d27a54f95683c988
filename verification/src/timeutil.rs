//! Parsing clip-time expressions out of a chat message.
//!
//! A message may carry a start time, a duration and an end time, each
//! introduced by a keyword (`start`/`begin`/`beginning`, `dur`/`duration`,
//! `end`/`term`/`terminate`/`termination`), optionally followed by `=` and
//! an hour/minute/second group such as `1h2m3s`. The search is unanchored
//! and leftmost: the first position where a keyword matches decides, the
//! groups after it are each optional and greedy, and a digit run that
//! overflows sixty-four bits counts as zero. Everything is byte-level
//! ASCII; multi-byte characters can never match a keyword, a digit or a
//! space, so scanning bytes agrees with scanning characters.

use vstd::prelude::*;
use vstd::string::StringSliceAdditionalSpecFns;

verus! {

/// The bytes the pattern treats as whitespace.
pub open spec fn is_space(b: u8) -> bool {
    b == 32 || (9 <= b && b <= 13)
}

/// ASCII decimal digits.
pub open spec fn is_digit(b: u8) -> bool {
    48 <= b && b <= 57
}

/// Which of the three expressions is being looked for.
#[derive(Clone, Copy, Debug, PartialEq, Eq, Structural)]
pub enum TimeKind {
    Start,
    Dur,
    End,
}

// Each `at_*` predicate below spells one keyword of the grammar, byte for
// byte, as ASCII codes.
pub open spec fn at_start(s: Seq<u8>, i: int) -> bool {
    &&& i + 5 <= s.len()
    &&& s[i] == 115
    &&& s[i + 1] == 116
    &&& s[i + 2] == 97
    &&& s[i + 3] == 114
    &&& s[i + 4] == 116
}

pub open spec fn at_begin(s: Seq<u8>, i: int) -> bool {
    &&& i + 5 <= s.len()
    &&& s[i] == 98
    &&& s[i + 1] == 101
    &&& s[i + 2] == 103
    &&& s[i + 3] == 105
    &&& s[i + 4] == 110
}

pub open spec fn at_ning(s: Seq<u8>, i: int) -> bool {
    &&& i + 4 <= s.len()
    &&& s[i] == 110
    &&& s[i + 1] == 105
    &&& s[i + 2] == 110
    &&& s[i + 3] == 103
}

pub open spec fn at_dur(s: Seq<u8>, i: int) -> bool {
    &&& i + 3 <= s.len()
    &&& s[i] == 100
    &&& s[i + 1] == 117
    &&& s[i + 2] == 114
}

pub open spec fn at_ation(s: Seq<u8>, i: int) -> bool {
    &&& i + 5 <= s.len()
    &&& s[i] == 97
    &&& s[i + 1] == 116
    &&& s[i + 2] == 105
    &&& s[i + 3] == 111
    &&& s[i + 4] == 110
}

pub open spec fn at_end(s: Seq<u8>, i: int) -> bool {
    &&& i + 3 <= s.len()
    &&& s[i] == 101
    &&& s[i + 1] == 110
    &&& s[i + 2] == 100
}

pub open spec fn at_term(s: Seq<u8>, i: int) -> bool {
    &&& i + 4 <= s.len()
    &&& s[i] == 116
    &&& s[i + 1] == 101
    &&& s[i + 2] == 114
    &&& s[i + 3] == 109
}

pub open spec fn at_inate(s: Seq<u8>, i: int) -> bool {
    &&& i + 5 <= s.len()
    &&& s[i] == 105
    &&& s[i + 1] == 110
    &&& s[i + 2] == 97
    &&& s[i + 3] == 116
    &&& s[i + 4] == 101
}

pub open spec fn at_ination(s: Seq<u8>, i: int) -> bool {
    &&& i + 7 <= s.len()
    &&& s[i] == 105
    &&& s[i + 1] == 110
    &&& s[i + 2] == 97
    &&& s[i + 3] == 116
    &&& s[i + 4] == 105
    &&& s[i + 5] == 111
    &&& s[i + 6] == 110
}

/// Where the keyword of `k` ends when it matches at position `i`: each
/// alternative is tried in pattern order and optional suffixes are greedy.
pub open spec fn spec_keyword_end(s: Seq<u8>, i: int, k: TimeKind) -> Option<int> {
    match k {
        TimeKind::Start => if at_start(s, i) {
            Some(i + 5)
        } else if at_begin(s, i) {
            if at_ning(s, i + 5) {
                Some(i + 9)
            } else {
                Some(i + 5)
            }
        } else {
            None
        },
        TimeKind::Dur => if at_dur(s, i) {
            if at_ation(s, i + 3) {
                Some(i + 8)
            } else {
                Some(i + 3)
            }
        } else {
            None
        },
        TimeKind::End => if at_end(s, i) {
            Some(i + 3)
        } else if at_term(s, i) {
            if at_inate(s, i + 4) {
                Some(i + 9)
            } else if at_ination(s, i + 4) {
                Some(i + 11)
            } else {
                Some(i + 4)
            }
        } else {
            None
        },
    }
}

/// The leftmost position at or after `i` where the keyword of `k` matches.
pub open spec fn spec_find_keyword(s: Seq<u8>, i: int, k: TimeKind) -> Option<int>
    decreases s.len() - i,
{
    if i >= s.len() {
        None
    } else if spec_keyword_end(s, i, k) is Some {
        Some(i)
    } else {
        spec_find_keyword(s, i + 1, k)
    }
}

/// The first position at or after `i` that does not hold whitespace.
pub open spec fn spec_skip_spaces(s: Seq<u8>, i: int) -> int
    decreases s.len() - i,
{
    if 0 <= i < s.len() && is_space(s[i]) {
        spec_skip_spaces(s, i + 1)
    } else {
        i
    }
}

/// The first position at or after `i` that does not hold a digit.
pub open spec fn spec_digits_end(s: Seq<u8>, i: int) -> int
    decreases s.len() - i,
{
    if 0 <= i < s.len() && is_digit(s[i]) {
        spec_digits_end(s, i + 1)
    } else {
        i
    }
}

pub proof fn lemma_digits_end_props(s: Seq<u8>, i: int)
    requires
        0 <= i <= s.len(),
    ensures
        i <= spec_digits_end(s, i) <= s.len(),
        forall|t: int| i <= t < spec_digits_end(s, i) ==> is_digit(#[trigger] s[t]),
    decreases s.len() - i,
{
    if i < s.len() && is_digit(s[i]) {
        lemma_digits_end_props(s, i + 1);
    }
}

/// One optional `<digits><unit>` group with an optional single trailing
/// space, as in `12h ` or `3m`: the captured digit run and the position
/// where matching continues. A group that does not match captures nothing
/// and consumes nothing.
pub open spec fn spec_unit_group(s: Seq<u8>, p: int, unit: u8) -> (Option<Seq<u8>>, int) {
    let e = spec_digits_end(s, p);
    if e > p && e < s.len() && s[e] == unit {
        let q = if e + 1 < s.len() && is_space(s[e + 1]) {
            e + 2
        } else {
            e + 1
        };
        (Some(s.subrange(p, e)), q)
    } else {
        (None, p)
    }
}

/// The final optional group: a digit run with an optional `s` after it.
pub open spec fn spec_seconds_group(s: Seq<u8>, p: int) -> Option<Seq<u8>> {
    let e = spec_digits_end(s, p);
    if e > p {
        Some(s.subrange(p, e))
    } else {
        None
    }
}

/// The three captured digit runs of one matched expression.
pub ghost struct SpecCaptures {
    pub hours: Option<Seq<u8>>,
    pub minutes: Option<Seq<u8>>,
    pub seconds: Option<Seq<u8>>,
}

/// The captures of the leftmost match of `k` in `s`: none when no keyword
/// occurs anywhere, otherwise the keyword is followed by optional
/// whitespace, an optional `=`, optional whitespace, and the three
/// optional groups in order.
pub open spec fn spec_captures(s: Seq<u8>, k: TimeKind) -> Option<SpecCaptures> {
    match spec_find_keyword(s, 0, k) {
        None => None,
        Some(i) => {
            let j = spec_keyword_end(s, i, k).unwrap();
            let p0 = spec_skip_spaces(s, j);
            let p1 = if p0 < s.len() && s[p0] == 61 {
                p0 + 1
            } else {
                p0
            };
            let p2 = spec_skip_spaces(s, p1);
            let hg = spec_unit_group(s, p2, 104);
            let mg = spec_unit_group(s, hg.1, 109);
            let sec = spec_seconds_group(s, mg.1);
            Some(SpecCaptures { hours: hg.0, minutes: mg.0, seconds: sec })
        },
    }
}

/// The number a digit run denotes.
pub open spec fn digits_val(ds: Seq<u8>) -> int
    decreases ds.len(),
{
    if ds.len() == 0 {
        0
    } else {
        digits_val(ds.drop_last()) * 10 + (ds.last() - 48)
    }
}

pub proof fn lemma_digits_val_nonneg(ds: Seq<u8>)
    requires
        forall|t: int| 0 <= t < ds.len() ==> is_digit(#[trigger] ds[t]),
    ensures
        digits_val(ds) >= 0,
    decreases ds.len(),
{
    if ds.len() > 0 {
        lemma_digits_val_nonneg(ds.drop_last());
    }
}

/// What one captured component contributes: absent captures and digit runs
/// whose value does not fit in sixty-four bits both count as zero.
pub open spec fn spec_component(c: Option<Seq<u8>>) -> int {
    match c {
        Some(ds) => if digits_val(ds) <= u64::MAX {
            digits_val(ds)
        } else {
            0
        },
        None => 0,
    }
}

/// Saturate a non-negative count of seconds into a `u64`.
pub open spec fn sat_u64(x: int) -> u64 {
    if x > u64::MAX {
        u64::MAX
    } else {
        x as u64
    }
}

/// The seconds one matched expression denotes.
pub open spec fn spec_capture_seconds(c: SpecCaptures) -> u64 {
    sat_u64(spec_component(c.hours) * 3600 + spec_component(c.minutes) * 60 + spec_component(
        c.seconds,
    ))
}

/// The seconds the leftmost match of `k` denotes, if `k` occurs at all.
pub open spec fn spec_time(s: Seq<u8>, k: TimeKind) -> Option<u64> {
    match spec_captures(s, k) {
        Some(c) => Some(spec_capture_seconds(c)),
        None => None,
    }
}

/// What `parse_times` returns: the start time and the end time, where a
/// missing end expression falls back to start plus duration when both of
/// those are present.
pub open spec fn spec_parse_times(s: Seq<u8>) -> (Option<u64>, Option<u64>) {
    let start = spec_time(s, TimeKind::Start);
    let dur = spec_time(s, TimeKind::Dur);
    let end0 = spec_time(s, TimeKind::End);
    let end = if end0 is Some {
        end0
    } else if start is Some && dur is Some {
        Some(sat_u64(start.unwrap() + dur.unwrap()))
    } else {
        None
    };
    (start, end)
}

/// The captured digit runs of one matched expression, as byte ranges into
/// the scanned text.
#[derive(Clone, Copy, Debug)]
pub struct CaptureRanges {
    pub hours: Option<(usize, usize)>,
    pub minutes: Option<(usize, usize)>,
    pub seconds: Option<(usize, usize)>,
}

/// Whether a byte range stands for a captured digit run.
pub open spec fn range_matches(s: Seq<u8>, r: Option<(usize, usize)>, c: Option<Seq<u8>>) -> bool {
    match r {
        Some((a, b)) => {
            &&& c is Some
            &&& a <= b <= s.len()
            &&& s.subrange(a as int, b as int) == c.unwrap()
            &&& forall|t: int| a <= t < b ==> is_digit(#[trigger] s[t])
        },
        None => c is None,
    }
}

/// Whether the ranges stand exactly for the captures.
pub open spec fn ranges_match(s: Seq<u8>, r: Option<CaptureRanges>, c: Option<SpecCaptures>) -> bool {
    match r {
        Some(cr) => {
            &&& c is Some
            &&& range_matches(s, cr.hours, c.unwrap().hours)
            &&& range_matches(s, cr.minutes, c.unwrap().minutes)
            &&& range_matches(s, cr.seconds, c.unwrap().seconds)
        },
        None => c is None,
    }
}

fn is_space_byte(b: u8) -> (r: bool)
    ensures
        r == is_space(b),
{
    b == 32 || (9 <= b && b <= 13)
}

fn is_digit_byte(b: u8) -> (r: bool)
    ensures
        r == is_digit(b),
{
    48 <= b && b <= 57
}

fn skip_spaces(s: &[u8], i: usize) -> (r: usize)
    requires
        i <= s@.len(),
    ensures
        r as int == spec_skip_spaces(s@, i as int),
        i <= r <= s@.len(),
{
    let mut j: usize = i;
    loop
        invariant
            i <= j <= s@.len(),
            spec_skip_spaces(s@, i as int) == spec_skip_spaces(s@, j as int),
        ensures
            i <= j <= s@.len(),
            spec_skip_spaces(s@, i as int) == spec_skip_spaces(s@, j as int),
            j == s@.len() || !is_space(s@[j as int]),
        decreases s@.len() - j,
    {
        if j == s.len() {
            break;
        }
        if !is_space_byte(s[j]) {
            break;
        }
        j = j + 1;
    }
    j
}

fn digits_end(s: &[u8], i: usize) -> (r: usize)
    requires
        i <= s@.len(),
    ensures
        r as int == spec_digits_end(s@, i as int),
        i <= r <= s@.len(),
{
    let mut j: usize = i;
    loop
        invariant
            i <= j <= s@.len(),
            spec_digits_end(s@, i as int) == spec_digits_end(s@, j as int),
        ensures
            i <= j <= s@.len(),
            spec_digits_end(s@, i as int) == spec_digits_end(s@, j as int),
            j == s@.len() || !is_digit(s@[j as int]),
        decreases s@.len() - j,
    {
        if j == s.len() {
            break;
        }
        if !is_digit_byte(s[j]) {
            break;
        }
        j = j + 1;
    }
    j
}

fn keyword_end_at(s: &[u8], i: usize, k: TimeKind) -> (r: Option<usize>)
    requires
        i <= s@.len(),
    ensures
        match r {
            Some(j) => spec_keyword_end(s@, i as int, k) == Some(j as int) && i <= j <= s@.len(),
            None => spec_keyword_end(s@, i as int, k) is None,
        },
{
    let n = s.len();
    match k {
        TimeKind::Start => {
            if n - i >= 5 && s[i] == 115 && s[i + 1] == 116 && s[i + 2] == 97 && s[i + 3] == 114
                && s[i + 4] == 116 {
                Some(i + 5)
            } else if n - i >= 5 && s[i] == 98 && s[i + 1] == 101 && s[i + 2] == 103 && s[i + 3]
                == 105 && s[i + 4] == 110 {
                if n - i >= 9 && s[i + 5] == 110 && s[i + 6] == 105 && s[i + 7] == 110 && s[i + 8]
                    == 103 {
                    Some(i + 9)
                } else {
                    Some(i + 5)
                }
            } else {
                None
            }
        },
        TimeKind::Dur => {
            if n - i >= 3 && s[i] == 100 && s[i + 1] == 117 && s[i + 2] == 114 {
                if n - i >= 8 && s[i + 3] == 97 && s[i + 4] == 116 && s[i + 5] == 105 && s[i + 6]
                    == 111 && s[i + 7] == 110 {
                    Some(i + 8)
                } else {
                    Some(i + 3)
                }
            } else {
                None
            }
        },
        TimeKind::End => {
            if n - i >= 3 && s[i] == 101 && s[i + 1] == 110 && s[i + 2] == 100 {
                Some(i + 3)
            } else if n - i >= 4 && s[i] == 116 && s[i + 1] == 101 && s[i + 2] == 114 && s[i + 3]
                == 109 {
                if n - i >= 9 && s[i + 4] == 105 && s[i + 5] == 110 && s[i + 6] == 97 && s[i + 7]
                    == 116 && s[i + 8] == 101 {
                    Some(i + 9)
                } else if n - i >= 11 && s[i + 4] == 105 && s[i + 5] == 110 && s[i + 6] == 97 && s[i
                    + 7] == 116 && s[i + 8] == 105 && s[i + 9] == 111 && s[i + 10] == 110 {
                    Some(i + 11)
                } else {
                    Some(i + 4)
                }
            } else {
                None
            }
        },
    }
}

fn find_keyword(s: &[u8], k: TimeKind) -> (r: Option<(usize, usize)>)
    ensures
        match r {
            Some((i, j)) => {
                &&& spec_find_keyword(s@, 0, k) == Some(i as int)
                &&& spec_keyword_end(s@, i as int, k) == Some(j as int)
                &&& i <= j <= s@.len()
            },
            None => spec_find_keyword(s@, 0, k) is None,
        },
{
    let mut i: usize = 0;
    loop
        invariant
            0 <= i <= s@.len(),
            spec_find_keyword(s@, 0, k) == spec_find_keyword(s@, i as int, k),
        decreases s@.len() - i,
    {
        if i == s.len() {
            return None;
        }
        match keyword_end_at(s, i, k) {
            Some(j) => {
                return Some((i, j));
            },
            None => {
                i = i + 1;
            },
        }
    }
}

fn unit_group(s: &[u8], p: usize, unit: u8) -> (r: (Option<(usize, usize)>, usize))
    requires
        p <= s@.len(),
    ensures
        r.1 as int == spec_unit_group(s@, p as int, unit).1,
        p <= r.1 <= s@.len(),
        range_matches(s@, r.0, spec_unit_group(s@, p as int, unit).0),
{
    proof {
        lemma_digits_end_props(s@, p as int);
    }
    let e = digits_end(s, p);
    if e > p && e < s.len() && s[e] == unit {
        let q0 = e + 1;
        let q = if q0 < s.len() && is_space_byte(s[q0]) {
            q0 + 1
        } else {
            q0
        };
        (Some((p, e)), q)
    } else {
        (None, p)
    }
}

fn seconds_group(s: &[u8], p: usize) -> (r: Option<(usize, usize)>)
    requires
        p <= s@.len(),
    ensures
        range_matches(s@, r, spec_seconds_group(s@, p as int)),
{
    proof {
        lemma_digits_end_props(s@, p as int);
    }
    let e = digits_end(s, p);
    if e > p {
        Some((p, e))
    } else {
        None
    }
}

/// Scan `s` for the expression of `k` and return the byte ranges of its
/// captured digit runs.
pub fn captures_ranges(s: &[u8], k: TimeKind) -> (r: Option<CaptureRanges>)
    ensures
        ranges_match(s@, r, spec_captures(s@, k)),
{
    match find_keyword(s, k) {
        None => None,
        Some((_i, j)) => {
            let p0 = skip_spaces(s, j);
            let p1 = if p0 < s.len() && s[p0] == 61 {
                p0 + 1
            } else {
                p0
            };
            let p2 = skip_spaces(s, p1);
            let hg = unit_group(s, p2, 104);
            let mg = unit_group(s, hg.1, 109);
            let sec = seconds_group(s, mg.1);
            Some(CaptureRanges { hours: hg.0, minutes: mg.0, seconds: sec })
        },
    }
}

/// The digit run a byte range captures, if any.
pub open spec fn opt_range_seq(s: Seq<u8>, r: Option<(usize, usize)>) -> Option<Seq<u8>> {
    match r {
        Some((a, b)) => Some(s.subrange(a as int, b as int)),
        None => None,
    }
}

/// Whether a byte range lies inside `s` and covers digits only.
pub open spec fn range_wf(s: Seq<u8>, r: Option<(usize, usize)>) -> bool {
    match r {
        Some((a, b)) => a <= b <= s.len() && forall|t: int| a <= t < b ==> is_digit(#[trigger] s[t]),
        None => true,
    }
}

/// Read one captured digit run as a number; a run whose value exceeds
/// sixty-four bits reads as zero, and an absent capture reads as zero.
fn component_value(s: &[u8], r: Option<(usize, usize)>) -> (v: u64)
    requires
        range_wf(s@, r),
    ensures
        v as int == spec_component(opt_range_seq(s@, r)),
{
    match r {
        None => 0,
        Some((a, b)) => parse_digits(s, a, b),
    }
}

fn parse_digits(s: &[u8], a: usize, b: usize) -> (r: u64)
    requires
        a <= b <= s@.len(),
        forall|t: int| a <= t < b ==> is_digit(#[trigger] s@[t]),
    ensures
        r as int == spec_component(Some(s@.subrange(a as int, b as int))),
{
    let mut acc: u128 = 0;
    let mut over: bool = false;
    let mut j: usize = a;
    while j < b
        invariant
            a <= j <= b <= s@.len(),
            forall|t: int| a <= t < b ==> is_digit(#[trigger] s@[t]),
            !over ==> acc == digits_val(s@.subrange(a as int, j as int)) && acc <= u64::MAX,
            over ==> digits_val(s@.subrange(a as int, j as int)) > u64::MAX,
        decreases b - j,
    {
        let d: u128 = (s[j] - 48) as u128;
        proof {
            let prev = s@.subrange(a as int, j as int);
            let next = s@.subrange(a as int, j as int + 1);
            assert(next.drop_last() =~= prev);
            assert(digits_val(next) == digits_val(prev) * 10 + (s@[j as int] - 48));
            lemma_digits_val_nonneg(prev);
        }
        if !over {
            let nacc: u128 = acc * 10 + d;
            if nacc > u64::MAX as u128 {
                over = true;
            } else {
                acc = nacc;
            }
        }
        j = j + 1;
    }
    assert(s@.subrange(a as int, j as int) =~= s@.subrange(a as int, b as int));
    if over {
        0
    } else {
        acc as u64
    }
}

/// Add two second counts, saturating at the largest `u64`.
fn sat_add_u64(a: u64, b: u64) -> (r: u64)
    ensures
        r == sat_u64(a as int + b as int),
{
    let total: u128 = a as u128 + b as u128;
    if total > u64::MAX as u128 {
        u64::MAX
    } else {
        total as u64
    }
}

fn capture_seconds(s: &[u8], cr: CaptureRanges) -> (r: u64)
    requires
        range_wf(s@, cr.hours),
        range_wf(s@, cr.minutes),
        range_wf(s@, cr.seconds),
    ensures
        r == sat_u64(
            spec_component(opt_range_seq(s@, cr.hours)) * 3600 + spec_component(
                opt_range_seq(s@, cr.minutes),
            ) * 60 + spec_component(opt_range_seq(s@, cr.seconds)),
        ),
{
    let h: u128 = component_value(s, cr.hours) as u128;
    let m: u128 = component_value(s, cr.minutes) as u128;
    let sec: u128 = component_value(s, cr.seconds) as u128;
    let total: u128 = h * 3600 + m * 60 + sec;
    if total > u64::MAX as u128 {
        u64::MAX
    } else {
        total as u64
    }
}

fn time_component(s: &[u8], k: TimeKind) -> (r: Option<u64>)
    ensures
        r == spec_time(s@, k),
{
    match captures_ranges(s, k) {
        None => None,
        Some(cr) => {
            proof {
                let c = spec_captures(s@, k).unwrap();
                assert(opt_range_seq(s@, cr.hours) == c.hours);
                assert(opt_range_seq(s@, cr.minutes) == c.minutes);
                assert(opt_range_seq(s@, cr.seconds) == c.seconds);
            }
            Some(capture_seconds(s, cr))
        },
    }
}

/// Parse the clip window out of a chat message: the start time and the end
/// time in whole seconds, where a missing end expression falls back to
/// start plus duration when both of those are present.
pub fn parse_times(s: &str) -> (r: (Option<u64>, Option<u64>))
    ensures
        r == spec_parse_times(s.spec_bytes()),
{
    let bytes = s.as_bytes();
    let start = time_component(bytes, TimeKind::Start);
    let dur = time_component(bytes, TimeKind::Dur);
    let end0 = time_component(bytes, TimeKind::End);
    let end = if end0.is_some() {
        end0
    } else if start.is_some() && dur.is_some() {
        Some(sat_add_u64(start.unwrap(), dur.unwrap()))
    } else {
        None
    };
    (start, end)
}

/// The named captures of one matched expression, each the captured digit
/// run as text, mirroring what the scan found.
#[derive(Clone, Debug, PartialEq)]
pub struct TimeCaptures {
    pub hours: Option<String>,
    pub minutes: Option<String>,
    pub seconds: Option<String>,
}

/// Whether an optional string holds exactly a captured digit run.
pub open spec fn opt_digits_string(o: Option<String>, c: Option<Seq<u8>>) -> bool {
    match o {
        Some(st) => c is Some && st@ == c.unwrap().map_values(|b: u8| b as char),
        None => c is None,
    }
}

fn digit_str(d: u8) -> (r: &'static str)
    requires
        is_digit(d),
    ensures
        r@.len() == 1,
        r@[0] == d as char,
{
    proof {
        reveal_strlit("0");
        reveal_strlit("1");
        reveal_strlit("2");
        reveal_strlit("3");
        reveal_strlit("4");
        reveal_strlit("5");
        reveal_strlit("6");
        reveal_strlit("7");
        reveal_strlit("8");
        reveal_strlit("9");
    }
    if d == 48 {
        "0"
    } else if d == 49 {
        "1"
    } else if d == 50 {
        "2"
    } else if d == 51 {
        "3"
    } else if d == 52 {
        "4"
    } else if d == 53 {
        "5"
    } else if d == 54 {
        "6"
    } else if d == 55 {
        "7"
    } else if d == 56 {
        "8"
    } else {
        "9"
    }
}

fn range_string(s: &[u8], a: usize, b: usize) -> (r: String)
    requires
        a <= b <= s@.len(),
        forall|t: int| a <= t < b ==> is_digit(#[trigger] s@[t]),
    ensures
        r@ == s@.subrange(a as int, b as int).map_values(|bb: u8| bb as char),
{
    let mut out = String::new();
    let mut j: usize = a;
    while j < b
        invariant
            a <= j <= b <= s@.len(),
            forall|t: int| a <= t < b ==> is_digit(#[trigger] s@[t]),
            out@ == s@.subrange(a as int, j as int).map_values(|bb: u8| bb as char),
        decreases b - j,
    {
        let ds = digit_str(s[j]);
        out.append(ds);
        j = j + 1;
        proof {
            assert(s@.subrange(a as int, j as int).map_values(|bb: u8| bb as char) =~= s@.subrange(
                a as int,
                j as int - 1,
            ).map_values(|bb: u8| bb as char) + seq![s@[j as int - 1] as char]);
        }
    }
    assert(s@.subrange(a as int, j as int) =~= s@.subrange(a as int, b as int));
    out
}

fn opt_range_string(s: &[u8], r: Option<(usize, usize)>) -> (o: Option<String>)
    requires
        range_wf(s@, r),
    ensures
        opt_digits_string(o, opt_range_seq(s@, r)),
{
    match r {
        None => None,
        Some((a, b)) => Some(range_string(s, a, b)),
    }
}

/// Scan a message for the expression of `k` and hand back its captures as
/// text: the counterpart of matching one of the three patterns and reading
/// the named groups.
pub fn captures_for(s: &str, k: TimeKind) -> (r: Option<TimeCaptures>)
    ensures
        r is Some <==> spec_captures(s.spec_bytes(), k) is Some,
        r matches Some(tc) ==> {
            let c = spec_captures(s.spec_bytes(), k).unwrap();
            &&& opt_digits_string(tc.hours, c.hours)
            &&& opt_digits_string(tc.minutes, c.minutes)
            &&& opt_digits_string(tc.seconds, c.seconds)
        },
{
    let bytes = s.as_bytes();
    match captures_ranges(bytes, k) {
        None => None,
        Some(cr) => Some(
            TimeCaptures {
                hours: opt_range_string(bytes, cr.hours),
                minutes: opt_range_string(bytes, cr.minutes),
                seconds: opt_range_string(bytes, cr.seconds),
            },
        ),
    }
}

} // verus!
