//! The command-execution marker protocol.
//!
//! A command is wrapped so that the remote shell prints the exit code
//! between a sentinel prefix and suffix; the captured terminal output is
//! then searched for `prefix <digits> suffix`, the first match supplies the
//! exit code, and every match is stripped from the returned text.  The
//! matcher mirrors the greedy semantics of the pattern
//! `prefix(\d+)suffix`: at the leftmost occurrence, the longest digit run
//! followed by the suffix wins.

use vstd::prelude::*;

use crate::errors::{ApiError, ApiResult, ErrorCode};
use crate::pattern::{regex_valid, Pattern};
use vstd::string::StringSliceAdditionalSpecFns;

verus! {

/// Whether `c` is an ASCII decimal digit.
pub open spec fn is_digit_char(c: char) -> bool {
    48 <= c as u32 <= 57
}

/// Whether `p` occurs in `s` starting at `i`.
pub open spec fn seq_starts_with(s: Seq<char>, i: int, p: Seq<char>) -> bool {
    0 <= i && i + p.len() <= s.len() && s.subrange(i, i + p.len()) == p
}

/// Length of the maximal digit run starting at `j`.
pub open spec fn digit_run_len(s: Seq<char>, j: int) -> int
    decreases s.len() - j,
{
    if j < 0 || j >= s.len() {
        0
    } else if is_digit_char(s[j]) {
        1 + digit_run_len(s, j + 1)
    } else {
        0
    }
}

/// The greedy digit count: the largest `d` with `1 <= d <= bound` such that
/// the suffix follows the first `d` digits, or `None`.
pub open spec fn greedy_digit_match(s: Seq<char>, j: int, bound: int, suffix: Seq<char>) -> Option<
    int,
>
    decreases bound,
{
    if bound <= 0 {
        None
    } else if seq_starts_with(s, j + bound, suffix) {
        Some(bound)
    } else {
        greedy_digit_match(s, j, bound - 1, suffix)
    }
}

/// A marker match: where it starts, how many digits it captured, and where
/// it ends (one past the suffix).
pub struct MarkerMatch {
    pub start: int,
    pub digits: int,
    pub end: int,
}

/// The match of `prefix (\d+) suffix` anchored at `i`, if any.
pub open spec fn marker_match_at(s: Seq<char>, i: int, prefix: Seq<char>, suffix: Seq<char>) -> Option<
    MarkerMatch,
> {
    if seq_starts_with(s, i, prefix) {
        let j = i + prefix.len();
        match greedy_digit_match(s, j, digit_run_len(s, j), suffix) {
            Some(d) => Some(MarkerMatch { start: i, digits: d, end: j + d + suffix.len() }),
            None => None,
        }
    } else {
        None
    }
}

/// The leftmost marker match at or after `i`.
pub open spec fn first_marker_match(s: Seq<char>, i: int, prefix: Seq<char>, suffix: Seq<char>) -> Option<
    MarkerMatch,
>
    decreases s.len() - i,
{
    if i < 0 || i > s.len() {
        None
    } else {
        match marker_match_at(s, i, prefix, suffix) {
            Some(m) => Some(m),
            None => if i == s.len() {
                None
            } else {
                first_marker_match(s, i + 1, prefix, suffix)
            },
        }
    }
}

proof fn lemma_greedy_bounds(s: Seq<char>, j: int, bound: int, suffix: Seq<char>)
    ensures
        match greedy_digit_match(s, j, bound, suffix) {
            Some(d) => 1 <= d <= bound && seq_starts_with(s, j + d, suffix),
            None => true,
        },
    decreases bound,
{
    if bound > 0 && !seq_starts_with(s, j + bound, suffix) {
        lemma_greedy_bounds(s, j, bound - 1, suffix);
    }
}

proof fn lemma_digit_run_bounds(s: Seq<char>, j: int)
    requires
        0 <= j <= s.len(),
    ensures
        0 <= digit_run_len(s, j),
        j + digit_run_len(s, j) <= s.len(),
    decreases s.len() - j,
{
    if j < s.len() && is_digit_char(s[j]) {
        lemma_digit_run_bounds(s, j + 1);
    }
}

/// Every match lies within the string and consumes at least one character.
pub proof fn lemma_marker_match_bounds(s: Seq<char>, i: int, prefix: Seq<char>, suffix: Seq<char>)
    requires
        0 <= i <= s.len(),
    ensures
        match marker_match_at(s, i, prefix, suffix) {
            Some(m) => m.start == i && i < m.end <= s.len() && m.digits >= 1 && m.end == i
                + prefix.len() + m.digits + suffix.len(),
            None => true,
        },
{
    if seq_starts_with(s, i, prefix) {
        let j = i + prefix.len();
        lemma_digit_run_bounds(s, j);
        lemma_greedy_bounds(s, j, digit_run_len(s, j), suffix);
    }
}

/// The same, for the leftmost match.
pub proof fn lemma_first_match_bounds(s: Seq<char>, i: int, prefix: Seq<char>, suffix: Seq<char>)
    requires
        0 <= i <= s.len(),
    ensures
        match first_marker_match(s, i, prefix, suffix) {
            Some(m) => i <= m.start < m.end <= s.len() && m.digits >= 1 && m.end == m.start
                + prefix.len() + m.digits + suffix.len(),
            None => true,
        },
    decreases s.len() - i,
{
    lemma_marker_match_bounds(s, i, prefix, suffix);
    if marker_match_at(s, i, prefix, suffix) is None && i < s.len() {
        lemma_first_match_bounds(s, i + 1, prefix, suffix);
    }
}

/// `s` with every non-overlapping match of the marker removed, scanning
/// left to right.
pub open spec fn strip_marker(s: Seq<char>, prefix: Seq<char>, suffix: Seq<char>) -> Seq<char>
    decreases s.len(),
    when true
    via strip_marker_decreases
{
    match first_marker_match(s, 0, prefix, suffix) {
        None => s,
        Some(m) => s.subrange(0, m.start) + strip_marker(
            s.subrange(m.end, s.len() as int),
            prefix,
            suffix,
        ),
    }
}

#[via_fn]
proof fn strip_marker_decreases(s: Seq<char>, prefix: Seq<char>, suffix: Seq<char>) {
    lemma_first_match_bounds(s, 0, prefix, suffix);
}

/// The numeric value of a digit sequence.
pub open spec fn digits_value_chars(s: Seq<char>) -> int
    decreases s.len(),
{
    if s.len() == 0 {
        0
    } else {
        digits_value_chars(s.drop_last()) * 10 + (s.last() as u32 - 48)
    }
}

/// What `\d+` captured parses to as an `i32`: the value when it fits,
/// nothing on overflow.
pub open spec fn parse_digits_i32(digits: Seq<char>) -> Option<i32> {
    if digits_value_chars(digits) <= i32::MAX {
        Some(digits_value_chars(digits) as i32)
    } else {
        None
    }
}

/// The digits captured by the leftmost match of one marker pair.
pub open spec fn marker_digits(s: Seq<char>, prefix: Seq<char>, suffix: Seq<char>) -> Option<
    Seq<char>,
> {
    match first_marker_match(s, 0, prefix, suffix) {
        Some(m) => Some(s.subrange(m.start + prefix.len(), m.start + prefix.len() + m.digits)),
        None => None,
    }
}

/// The exit code one marker pair recovers from `s`.
pub open spec fn marker_exit_code(s: Seq<char>, prefix: Seq<char>, suffix: Seq<char>) -> Option<
    i32,
> {
    match marker_digits(s, prefix, suffix) {
        Some(digits) => parse_digits_i32(digits),
        None => None,
    }
}

/// The exit code of the whole extraction: the primary marker first, the
/// fallback pair only when the primary yields nothing.
pub open spec fn exec_exit_code_spec(
    s: Seq<char>,
    prefix: Seq<char>,
    suffix: Seq<char>,
    fallback: Option<(Seq<char>, Seq<char>)>,
) -> Option<i32> {
    match marker_exit_code(s, prefix, suffix) {
        Some(v) => Some(v),
        None => match fallback {
            Some(pair) => marker_exit_code(s, pair.0, pair.1),
            None => None,
        },
    }
}

/// The cleaned output: primary matches removed first, then fallback
/// matches removed from the result.
pub open spec fn cleaned_output_spec(
    s: Seq<char>,
    prefix: Seq<char>,
    suffix: Seq<char>,
    fallback: Option<(Seq<char>, Seq<char>)>,
) -> Seq<char> {
    let first_pass = strip_marker(s, prefix, suffix);
    match fallback {
        Some(pair) => strip_marker(first_pass, pair.0, pair.1),
        None => first_pass,
    }
}

/// Relies on str::chars collected into a vector: exactly the characters of
/// the string, in order.
#[verifier::external_body]
fn chars_of(s: &str) -> (r: Vec<char>)
    ensures
        r@ == s@,
{
    s.chars().collect()
}

/// Relies on String's FromIterator over chars: the string spelled by
/// exactly these characters.
#[verifier::external_body]
fn string_of_chars(v: &Vec<char>) -> (r: String)
    ensures
        r@ == v@,
{
    v.iter().collect()
}

/// Whether `needle` occurs in `hay` at position `at`.
fn chars_start_with(hay: &Vec<char>, at: usize, needle: &Vec<char>) -> (r: bool)
    requires
        at <= hay@.len(),
    ensures
        r == seq_starts_with(hay@, at as int, needle@),
{
    if hay.len() - at < needle.len() {
        return false;
    }
    let mut k: usize = 0;
    proof {
        vstd::std_specs::vec::axiom_spec_len(hay);
    }
    while k < needle.len()
        invariant
            k <= needle@.len(),
            at + needle@.len() <= hay@.len(),
            hay@.len() <= usize::MAX,
            forall|m: int| 0 <= m < k ==> hay@[at + m] == needle@[m],
        decreases needle@.len() - k,
    {
        if hay[at + k] != needle[k] {
            proof {
                assert(hay@.subrange(at as int, at + needle@.len())[k as int] != needle@[k as int]);
            }
            return false;
        }
        k = k + 1;
    }
    proof {
        assert(hay@.subrange(at as int, at + needle@.len()) =~= needle@);
    }
    true
}

/// Length of the digit run starting at `from`.
fn digit_run(hay: &Vec<char>, from: usize) -> (r: usize)
    requires
        from <= hay@.len(),
    ensures
        r == digit_run_len(hay@, from as int),
        from + r <= hay@.len(),
{
    let mut j = from;
    while j < hay.len()
        invariant_except_break
            from <= j <= hay@.len(),
            digit_run_len(hay@, from as int) == (j - from) + digit_run_len(hay@, j as int),
        ensures
            from <= j <= hay@.len(),
            digit_run_len(hay@, from as int) == j - from,
        decreases hay@.len() - j,
    {
        let u = hay[j] as u32;
        if u < 48 || u > 57 {
            proof {
                assert(digit_run_len(hay@, j as int) == 0);
            }
            break ;
        }
        j = j + 1;
    }
    proof {
        assert(digit_run_len(hay@, from as int) == j - from);
    }
    j - from
}

/// The greedy digit count, trying the longest run first.
fn greedy_match(hay: &Vec<char>, j: usize, bound: usize, suffix: &Vec<char>) -> (r: Option<usize>)
    requires
        j + bound <= hay@.len(),
    ensures
        match r {
            Some(d) => greedy_digit_match(hay@, j as int, bound as int, suffix@) == Some(d as int),
            None => greedy_digit_match(hay@, j as int, bound as int, suffix@) is None,
        },
{
    let mut d = bound;
    proof {
        vstd::std_specs::vec::axiom_spec_len(hay);
    }
    while d >= 1
        invariant
            d <= bound,
            j + bound <= hay@.len(),
            hay@.len() <= usize::MAX,
            greedy_digit_match(hay@, j as int, bound as int, suffix@) == greedy_digit_match(
                hay@,
                j as int,
                d as int,
                suffix@,
            ),
        decreases d,
    {
        if chars_start_with(hay, j + d, suffix) {
            return Some(d);
        }
        d = d - 1;
    }
    None
}

/// The leftmost marker match at or after position 0.
fn find_first_marker(hay: &Vec<char>, prefix: &Vec<char>, suffix: &Vec<char>) -> (r: Option<
    (usize, usize, usize),
>)
    ensures
        match r {
            Some(m) => first_marker_match(hay@, 0, prefix@, suffix@) == Some(
                MarkerMatch { start: m.0 as int, digits: m.1 as int, end: m.2 as int },
            ) && m.0 < m.2 <= hay@.len() && m.0 + prefix@.len() + m.1 + suffix@.len() == m.2,
            None => first_marker_match(hay@, 0, prefix@, suffix@) is None,
        },
{
    let mut i: usize = 0;
    proof {
        vstd::std_specs::vec::axiom_spec_len(hay);
    }
    loop
        invariant
            i <= hay@.len(),
            hay@.len() <= usize::MAX,
            first_marker_match(hay@, 0, prefix@, suffix@) == first_marker_match(
                hay@,
                i as int,
                prefix@,
                suffix@,
            ),
        decreases hay@.len() - i,
    {
        if chars_start_with(hay, i, prefix) {
            proof {
                vstd::std_specs::vec::axiom_spec_len(prefix);
            }
            let j = i + prefix.len();
            let run = digit_run(hay, j);
            match greedy_match(hay, j, run, suffix) {
                Some(d) => {
                    proof {
                        lemma_greedy_bounds(hay@, j as int, run as int, suffix@);
                    }
                    return Some((i, d, j + d + suffix.len()));
                },
                None => {},
            }
        }
        if i == hay.len() {
            return None;
        }
        i = i + 1;
    }
}

/// `hay` with every non-overlapping marker match removed.
fn strip_marker_vec(hay: &Vec<char>, prefix: &Vec<char>, suffix: &Vec<char>) -> (r: Vec<char>)
    ensures
        r@ == strip_marker(hay@, prefix@, suffix@),
{
    let ghost whole = hay@;
    let mut rest = vstd::slice::slice_to_vec(hay.as_slice());
    let mut cleaned: Vec<char> = Vec::new();
    proof {
        assert(cleaned@ + strip_marker(rest@, prefix@, suffix@) =~= strip_marker(
            whole,
            prefix@,
            suffix@,
        ));
    }
    loop
        invariant
            whole == hay@,
            strip_marker(whole, prefix@, suffix@) == cleaned@ + strip_marker(
                rest@,
                prefix@,
                suffix@,
            ),
        decreases rest@.len(),
    {
        let found = find_first_marker(&rest, prefix, suffix);
        match found {
            None => {
                let mut k: usize = 0;
                let ghost base = cleaned@;
                proof {
                    assert(base + rest@.take(0) =~= base);
                }
                while k < rest.len()
                    invariant
                        k <= rest@.len(),
                        cleaned@ == base + rest@.take(k as int),
                    decreases rest@.len() - k,
                {
                    let c = rest[k];
                    cleaned.push(c);
                    k = k + 1;
                    proof {
                        assert(base + rest@.take(k as int) =~= (base + rest@.take(k - 1)).push(
                            rest@[k - 1],
                        ));
                    }
                }
                proof {
                    assert(rest@.take(rest@.len() as int) =~= rest@);
                    assert(strip_marker(rest@, prefix@, suffix@) == rest@);
                    assert(cleaned@ =~= base + rest@);
                    assert(base + strip_marker(rest@, prefix@, suffix@) =~= base + rest@);
                    assert(cleaned@ == strip_marker(whole, prefix@, suffix@));
                }
                return cleaned;
            },
            Some(m) => {
                let ghost pre_rest = rest@;
                let ghost pre_cleaned = cleaned@;
                let mut k: usize = 0;
                proof {
                    assert(pre_cleaned + rest@.take(0) =~= pre_cleaned);
                }
                while k < m.0
                    invariant
                        k <= m.0,
                        m.0 <= rest@.len(),
                        rest@ == pre_rest,
                        cleaned@ == pre_cleaned + rest@.take(k as int),
                    decreases m.0 - k,
                {
                    let c = rest[k];
                    cleaned.push(c);
                    k = k + 1;
                    proof {
                        assert(pre_cleaned + rest@.take(k as int) =~= (pre_cleaned + rest@.take(
                            k - 1,
                        )).push(rest@[k - 1]));
                    }
                }
                let mut tail_part: Vec<char> = Vec::new();
                let mut t = m.2;
                proof {
                    assert(rest@.subrange(m.2 as int, m.2 as int) =~= Seq::<char>::empty());
                }
                while t < rest.len()
                    invariant
                        m.2 <= t <= rest@.len(),
                        rest@ == pre_rest,
                        tail_part@ == rest@.subrange(m.2 as int, t as int),
                    decreases rest@.len() - t,
                {
                    let c = rest[t];
                    tail_part.push(c);
                    t = t + 1;
                    proof {
                        assert(rest@.subrange(m.2 as int, t as int) =~= rest@.subrange(
                            m.2 as int,
                            t - 1,
                        ).push(rest@[t - 1]));
                    }
                }
                proof {
                    assert(rest@.take(m.0 as int) =~= rest@.subrange(0, m.0 as int));
                    assert(tail_part@ =~= rest@.subrange(m.2 as int, rest@.len() as int));
                    assert(strip_marker(pre_rest, prefix@, suffix@) == pre_rest.subrange(
                        0,
                        m.0 as int,
                    ) + strip_marker(tail_part@, prefix@, suffix@));
                    assert(cleaned@ + strip_marker(tail_part@, prefix@, suffix@) =~= (pre_cleaned
                        + pre_rest.subrange(0, m.0 as int)) + strip_marker(
                        tail_part@,
                        prefix@,
                        suffix@,
                    ));
                    assert(pre_cleaned + strip_marker(pre_rest, prefix@, suffix@) =~= (pre_cleaned
                        + pre_rest.subrange(0, m.0 as int)) + strip_marker(
                        tail_part@,
                        prefix@,
                        suffix@,
                    ));
                }
                rest = tail_part;
            },
        }
    }
}

proof fn lemma_digits_value_chars_nonneg(s: Seq<char>)
    requires
        forall|i: int| 0 <= i < s.len() ==> is_digit_char(#[trigger] s[i]),
    ensures
        digits_value_chars(s) >= 0,
    decreases s.len(),
{
    if s.len() > 0 {
        assert(forall|i: int|
            0 <= i < s.len() - 1 ==> is_digit_char(#[trigger] s.drop_last()[i]));
        lemma_digits_value_chars_nonneg(s.drop_last());
    }
}

proof fn lemma_digits_value_chars_prefix(s: Seq<char>, i: int)
    requires
        forall|j: int| 0 <= j < s.len() ==> is_digit_char(#[trigger] s[j]),
        0 <= i <= s.len(),
    ensures
        digits_value_chars(s.take(i)) <= digits_value_chars(s),
    decreases s.len() - i,
{
    if i < s.len() {
        lemma_digits_value_chars_prefix(s, i + 1);
        assert(s.take(i + 1).drop_last() =~= s.take(i));
        assert(s.take(i + 1).last() == s[i]);
        assert(forall|j: int| 0 <= j < i ==> is_digit_char(#[trigger] s.take(i)[j]));
        lemma_digits_value_chars_nonneg(s.take(i));
        assert(digits_value_chars(s.take(i + 1)) >= digits_value_chars(s.take(i)));
    } else {
        assert(s.take(i) =~= s);
    }
}

proof fn lemma_digit_run_all_digits(s: Seq<char>, j: int, k: int)
    requires
        0 <= j <= k < j + digit_run_len(s, j),
        j <= s.len(),
    ensures
        k < s.len() && is_digit_char(s[k]),
    decreases k - j,
{
    if k > j {
        lemma_digit_run_all_digits(s, j + 1, k);
    }
}

/// Parse a captured digit run as `i32`: the value when it fits, `None` on
/// overflow, exactly as `str::parse::<i32>` behaves on `\d+`.
fn parse_digits(digits: &Vec<char>) -> (r: Option<i32>)
    requires
        forall|i: int| 0 <= i < digits@.len() ==> is_digit_char(#[trigger] digits@[i]),
    ensures
        r == parse_digits_i32(digits@),
{
    let mut value: u32 = 0;
    let mut i: usize = 0;
    let ghost s = digits@;
    proof {
        assert(s.take(0) =~= Seq::<char>::empty());
    }
    while i < digits.len()
        invariant
            i <= s.len(),
            s == digits@,
            forall|j: int| 0 <= j < s.len() ==> is_digit_char(#[trigger] s[j]),
            value == digits_value_chars(s.take(i as int)),
            value <= i32::MAX,
        decreases s.len() - i,
    {
        let d = (digits[i] as u32) - 48;
        proof {
            assert(s.take(i + 1).drop_last() =~= s.take(i as int));
            assert(s.take(i + 1).last() == s[i as int]);
        }
        if value > (0x7fff_ffffu32 - d) / 10 {
            proof {
                assert(digits_value_chars(s.take(i + 1)) > i32::MAX);
                lemma_digits_value_chars_prefix(s, i + 1);
            }
            return None;
        }
        value = value * 10 + d;
        i = i + 1;
    }
    proof {
        assert(s.take(s.len() as int) =~= s);
    }
    Some(value as i32)
}

/// The exit code the given marker pair recovers from `hay`, if any.
fn marker_code(hay: &Vec<char>, prefix: &Vec<char>, suffix: &Vec<char>) -> (r: Option<i32>)
    ensures
        r == marker_exit_code(hay@, prefix@, suffix@),
{
    match find_first_marker(hay, prefix, suffix) {
        None => None,
        Some(m) => {
            proof {
                vstd::std_specs::vec::axiom_spec_len(hay);
                vstd::std_specs::vec::axiom_spec_len(prefix);
            }
            let j = m.0 + prefix.len();
            let mut digits: Vec<char> = Vec::new();
            let mut k = j;
            proof {
                lemma_first_match_bounds(hay@, 0, prefix@, suffix@);
            }
            while k < j + m.1
                invariant
                    j <= k <= j + m.1,
                    j + m.1 <= hay@.len(),
                    hay@.len() <= usize::MAX,
                    digits@ == hay@.subrange(j as int, k as int),
                decreases j + m.1 - k,
            {
                let c = hay[k];
                digits.push(c);
                k = k + 1;
                proof {
                    assert(hay@.subrange(j as int, k as int) =~= hay@.subrange(
                        j as int,
                        k - 1,
                    ).push(hay@[k - 1]));
                }
            }
            proof {
                let fm = first_marker_match(hay@, 0, prefix@, suffix@).unwrap();
                assert(fm.start == m.0 && fm.digits == m.1);
                assert(marker_match_at(hay@, fm.start, prefix@, suffix@) == Some(fm)) by {
                    lemma_first_match_is_match(hay@, 0, prefix@, suffix@);
                }
                lemma_greedy_bounds(
                    hay@,
                    fm.start + prefix@.len(),
                    digit_run_len(hay@, fm.start + prefix@.len()),
                    suffix@,
                );
                assert(forall|idx: int|
                    0 <= idx < digits@.len() ==> is_digit_char(#[trigger] digits@[idx])) by {
                    assert forall|idx: int| 0 <= idx < digits@.len() implies is_digit_char(
                        digits@[idx],
                    ) by {
                        lemma_digit_run_all_digits(hay@, j as int, j + idx);
                    }
                }
            }
            parse_digits(&digits)
        },
    }
}

/// The leftmost match reported by `first_marker_match` really is a match at
/// its own start position.
proof fn lemma_first_match_is_match(s: Seq<char>, i: int, prefix: Seq<char>, suffix: Seq<char>)
    requires
        0 <= i <= s.len(),
        first_marker_match(s, i, prefix, suffix) is Some,
    ensures
        ({
            let m = first_marker_match(s, i, prefix, suffix).unwrap();
            marker_match_at(s, m.start, prefix, suffix) == Some(m)
        }),
    decreases s.len() - i,
{
    if marker_match_at(s, i, prefix, suffix) is None && i < s.len() {
        lemma_first_match_is_match(s, i + 1, prefix, suffix);
    }
}

/// Search the captured output for the sentinel markers: recover the exit
/// code from the leftmost primary match (falling back to the fallback pair),
/// and strip every marker occurrence from the returned text.  The reason is
/// `marker_not_seen` exactly when no marker yielded a code.
pub fn extract_exit_code(
    output: &str,
    marker_prefix: &str,
    marker_suffix: &str,
    fallback_marker: Option<&(String, String)>,
) -> (r: (String, Option<i32>, Option<String>))
    ensures
        ({
            let fb = match fallback_marker {
                Some(pair) => Some((pair.0@, pair.1@)),
                None => None,
            };
            &&& r.1 == exec_exit_code_spec(output@, marker_prefix@, marker_suffix@, fb)
            &&& r.0@ == cleaned_output_spec(output@, marker_prefix@, marker_suffix@, fb)
            &&& match r.2 {
                Some(reason) => r.1 is None && reason@ == "marker_not_seen"@,
                None => r.1 is Some,
            }
        }),
{
    let hay = chars_of(output);
    let prefix = chars_of(marker_prefix);
    let suffix = chars_of(marker_suffix);
    let mut exit_code = marker_code(&hay, &prefix, &suffix);
    if exit_code.is_none() {
        if let Some(pair) = fallback_marker {
            let fb_prefix = chars_of(pair.0.as_str());
            let fb_suffix = chars_of(pair.1.as_str());
            exit_code = marker_code(&hay, &fb_prefix, &fb_suffix);
        }
    }
    let mut cleaned = strip_marker_vec(&hay, &prefix, &suffix);
    if let Some(pair) = fallback_marker {
        let fb_prefix = chars_of(pair.0.as_str());
        let fb_suffix = chars_of(pair.1.as_str());
        cleaned = strip_marker_vec(&cleaned, &fb_prefix, &fb_suffix);
    }
    let text = string_of_chars(&cleaned);
    match exit_code {
        Some(code) => (text, Some(code), None),
        None => (text, None, Some("marker_not_seen".to_owned())),
    }
}

/// The default sentinel prefix: RS (U+001E) followed by `RC=`.
pub fn default_marker_prefix() -> (r: String)
    ensures
        r@ == "\u{001e}RC="@,
{
    "\u{001e}RC=".to_owned()
}

/// The default sentinel suffix: US (U+001F).
pub fn default_marker_suffix() -> (r: String)
    ensures
        r@ == "\u{001f}"@,
{
    "\u{001f}".to_owned()
}

/// Relies on uuid::Uuid::new_v4 in simple form: a freshly drawn random
/// identifier of 32 hexadecimal digits.  Nothing is assumed about its value.
#[verifier::external_body]
pub fn fresh_token() -> (r: String)
    ensures
        r@.len() == 32,
{
    uuid::Uuid::new_v4().simple().to_string()
}

/// The fallback sentinel pair derived from a token; it survives terminals
/// that strip C1/C0 control characters.
pub fn fallback_marker_pair(token: &str) -> (r: (String, String))
    ensures
        r.0@ == "PTYCTL_RC_"@ + token@ + "="@,
        r.1@ == ":END_"@ + token@,
{
    let prefix = "PTYCTL_RC_".to_owned().concat(token).concat("=");
    let suffix = ":END_".to_owned().concat(token);
    (prefix, suffix)
}

/// The full command line sent to the remote shell: the command itself,
/// then a printf of the exit code between the primary markers, then (when a
/// fallback pair is active) a second printf between the fallback markers,
/// then a newline.
pub open spec fn exec_command_spec(
    cmd: Seq<char>,
    rc_enabled: bool,
    prefix: Seq<char>,
    suffix: Seq<char>,
    fallback: Option<(Seq<char>, Seq<char>)>,
) -> Seq<char> {
    if rc_enabled {
        let primary = cmd + "; rc=$?; printf \"\\n"@ + prefix + "%d"@ + suffix
            + "\\n\" \"$rc\""@;
        let with_fallback = match fallback {
            Some(pair) => primary + "; printf \"\\n"@ + pair.0 + "%d"@ + pair.1
                + "\\n\" \"$rc\""@,
            None => primary,
        };
        with_fallback + "\n"@
    } else {
        cmd + "\n"@
    }
}

/// Wrap a command for exit-code capture.
pub fn build_exec_command(
    cmd: &str,
    rc_enabled: bool,
    marker_prefix: &str,
    marker_suffix: &str,
    fallback_marker: Option<&(String, String)>,
) -> (r: String)
    ensures
        r@ == exec_command_spec(
            cmd@,
            rc_enabled,
            marker_prefix@,
            marker_suffix@,
            match fallback_marker {
                Some(pair) => Some((pair.0@, pair.1@)),
                None => None,
            },
        ),
{
    let mut command = cmd.to_owned();
    if rc_enabled {
        command = command.concat("; rc=$?; printf \"\\n");
        command = command.concat(marker_prefix);
        command = command.concat("%d");
        command = command.concat(marker_suffix);
        command = command.concat("\\n\" \"$rc\"");
        if let Some(pair) = fallback_marker {
            command = command.concat("; printf \"\\n");
            command = command.concat(pair.0.as_str());
            command = command.concat("%d");
            command = command.concat(pair.1.as_str());
            command = command.concat("\\n\" \"$rc\"");
        }
    }
    command = command.concat("\n");
    proof {
        assert(command@ =~= exec_command_spec(
            cmd@,
            rc_enabled,
            marker_prefix@,
            marker_suffix@,
            match fallback_marker {
                Some(pair) => Some((pair.0@, pair.1@)),
                None => None,
            },
        ));
    }
    command
}

/// The characters the regex crate escapes as meta characters.
pub open spec fn is_regex_meta_char(c: char) -> bool {
    c == '\\' || c == '.' || c == '+' || c == '*' || c == '?' || c == '(' || c == ')' || c
        == '|' || c == '[' || c == ']' || c == '{' || c == '}' || c == '^' || c == '$' || c
        == '#' || c == '&' || c == '-' || c == '~'
}

/// What regex::escape produces: a backslash before each meta character and
/// every other character unchanged.
pub open spec fn regex_escaped(s: Seq<char>) -> Seq<char>
    decreases s.len(),
{
    if s.len() == 0 {
        Seq::empty()
    } else {
        (if is_regex_meta_char(s[0]) {
            seq!['\\', s[0]]
        } else {
            seq![s[0]]
        }) + regex_escaped(s.drop_first())
    }
}

/// Relies on regex::escape: a backslash before each of the crate's meta
/// characters, nothing else changed.
#[verifier::external_body]
fn escape_regex_text(s: &str) -> (r: String)
    ensures
        r@ == regex_escaped(s@),
{
    regex::escape(s)
}

/// The pattern matching one marker pair: the escaped prefix, one or more
/// digits, the escaped suffix.
pub open spec fn marker_pattern_spec(prefix: Seq<char>, suffix: Seq<char>) -> Seq<char> {
    regex_escaped(prefix) + "(\\d+)"@ + regex_escaped(suffix)
}

/// The terminator pattern of an exec read: the primary marker, or either
/// marker when a fallback pair is active.
pub open spec fn combined_marker_pattern_spec(
    prefix: Seq<char>,
    suffix: Seq<char>,
    fallback: Option<(Seq<char>, Seq<char>)>,
) -> Seq<char> {
    match fallback {
        None => marker_pattern_spec(prefix, suffix),
        Some(pair) => "(?:"@ + marker_pattern_spec(prefix, suffix) + ")|(?:"@
            + marker_pattern_spec(pair.0, pair.1) + ")"@,
    }
}

/// Compile the marker terminator pattern.
pub fn build_marker_regex(
    marker_prefix: &str,
    marker_suffix: &str,
    fallback_marker: Option<&(String, String)>,
) -> (r: ApiResult<Pattern>)
    ensures
        ({
            let fb = match fallback_marker {
                Some(pair) => Some((pair.0@, pair.1@)),
                None => None,
            };
            let pat = combined_marker_pattern_spec(marker_prefix@, marker_suffix@, fb);
            &&& (r is Ok <==> regex_valid(pat))
            &&& (r is Ok ==> r.unwrap()@ == pat)
            &&& (r is Err ==> r.unwrap_err().error_code == ErrorCode::InvalidArgument)
        }),
{
    let primary = escape_regex_text(marker_prefix).concat("(\\d+)").concat(
        escape_regex_text(marker_suffix).as_str(),
    );
    let pattern = match fallback_marker {
        None => primary,
        Some(pair) => {
            let fallback = escape_regex_text(pair.0.as_str()).concat("(\\d+)").concat(
                escape_regex_text(pair.1.as_str()).as_str(),
            );
            "(?:".to_owned().concat(primary.as_str()).concat(")|(?:").concat(
                fallback.as_str(),
            ).concat(")")
        },
    };
    proof {
        assert(pattern@ =~= combined_marker_pattern_spec(
            marker_prefix@,
            marker_suffix@,
            match fallback_marker {
                Some(pair) => Some((pair.0@, pair.1@)),
                None => None,
            },
        ));
    }
    Pattern::new(pattern.as_str())
}

/// The sources, in order, of the error patterns that match somewhere in the
/// scanned text.
pub open spec fn error_hints_spec(patterns: Seq<Pattern>, text: Seq<u8>) -> Seq<Seq<char>>
    decreases patterns.len(),
{
    if patterns.len() == 0 {
        Seq::empty()
    } else {
        (if crate::pattern::regex_find_range(patterns[0]@, text) is Some {
            seq![patterns[0]@]
        } else {
            Seq::<Seq<char>>::empty()
        }) + error_hints_spec(patterns.drop_first(), text)
    }
}

/// Scan the cleaned output against each error pattern and report the
/// sources of those that matched.
pub fn extract_error_hints(output: &str, error_regexes: &Vec<Pattern>) -> (r: Vec<String>)
    ensures
        r.deep_view() == error_hints_spec(error_regexes@, output.spec_bytes()),
{
    let mut hints: Vec<String> = Vec::new();
    let mut i: usize = 0;
    let bytes = output.as_bytes();
    proof {
        assert(hints.deep_view() =~= Seq::<Seq<char>>::empty());
        assert(error_regexes@.skip(0) =~= error_regexes@);
    }
    while i < error_regexes.len()
        invariant
            i <= error_regexes@.len(),
            bytes@ == output.spec_bytes(),
            error_hints_spec(error_regexes@, output.spec_bytes()) == hints.deep_view()
                + error_hints_spec(error_regexes@.skip(i as int), output.spec_bytes()),
        decreases error_regexes@.len() - i,
    {
        let ghost pre = hints.deep_view();
        let matched = error_regexes[i].is_match_bytes(bytes);
        if matched {
            hints.push(error_regexes[i].source_str().to_owned());
            proof {
                assert(hints.deep_view() =~= pre + seq![error_regexes@[i as int]@]);
            }
        }
        i = i + 1;
        proof {
            assert(error_regexes@.skip(i - 1).drop_first() =~= error_regexes@.skip(i as int));
            assert(error_regexes@.skip(i - 1)[0] == error_regexes@[i - 1]);
            let tail_hints = error_hints_spec(error_regexes@.skip(i as int), output.spec_bytes());
            if matched {
                assert((pre + seq![error_regexes@[i - 1]@]) + tail_hints =~= pre + (seq![
                    error_regexes@[i - 1]@,
                ] + tail_hints));
            } else {
                assert(pre + (Seq::<Seq<char>>::empty() + tail_hints) =~= pre + tail_hints);
            }
        }
    }
    proof {
        assert(error_regexes@.skip(error_regexes@.len() as int) =~= Seq::<Pattern>::empty());
        assert(hints.deep_view() + Seq::<Seq<char>>::empty() =~= hints.deep_view());
    }
    hints
}

/// Compile the caller's waiting-for-input hint patterns; any invalid
/// pattern refuses the whole request.
pub fn compile_input_hints(hints: &Option<crate::session::InputHints>) -> (r: ApiResult<
    Option<Vec<Pattern>>,
>)
    ensures
        r is Err ==> r.unwrap_err().error_code == ErrorCode::InvalidArgument,
        *hints is None ==> r == Ok::<Option<Vec<Pattern>>, ApiError>(None),
        *hints is Some && hints.unwrap().wait_for_regexes is None ==> r == Ok::<
            Option<Vec<Pattern>>,
            ApiError,
        >(None),
        *hints is Some && hints.unwrap().wait_for_regexes is Some ==> ({
            let patterns = hints.unwrap().wait_for_regexes.unwrap();
            &&& (r is Ok <==> (forall|i: int|
                0 <= i < patterns@.len() ==> regex_valid(#[trigger] patterns@[i]@)))
            &&& (r is Ok ==> r.unwrap() is Some && r.unwrap().unwrap()@.len() == patterns@.len()
                && (forall|i: int|
                0 <= i < patterns@.len() ==> #[trigger] r.unwrap().unwrap()@[i]@
                    == patterns@[i]@))
        }),
{
    let patterns: &Vec<String> = match hints {
        Some(h) => match &h.wait_for_regexes {
            Some(p) => p,
            None => {
                return Ok(None);
            },
        },
        None => {
            return Ok(None);
        },
    };
    let mut compiled: Vec<Pattern> = Vec::new();
    let mut i: usize = 0;
    while i < patterns.len()
        invariant
            i <= patterns@.len(),
            compiled@.len() == i,
            *hints is Some && hints.unwrap().wait_for_regexes == Some(*patterns),
            forall|j: int| 0 <= j < i ==> regex_valid(#[trigger] patterns@[j]@),
            forall|j: int| 0 <= j < i ==> #[trigger] compiled@[j]@ == patterns@[j]@,
        decreases patterns@.len() - i,
    {
        let compiled_one = Pattern::new(patterns[i].as_str());
        match compiled_one {
            Ok(p) => {
                compiled.push(p);
            },
            Err(e) => {
                proof {
                    assert(hints.unwrap().wait_for_regexes.unwrap() == *patterns);
                    assert(!(forall|j: int|
                        0 <= j < patterns@.len() ==> regex_valid(#[trigger] patterns@[j]@)))
                        by {
                        assert(!regex_valid(patterns@[i as int]@));
                    }
                }
                return Err(e);
            },
        }
        i = i + 1;
    }
    Ok(Some(compiled))
}

/// Whether exit-code capture is on: the request's flag, on by default.
pub open spec fn exec_rc_enabled(rc_mode: Option<crate::session::RcMode>) -> bool {
    match rc_mode {
        Some(m) => match m.enabled {
            Some(b) => b,
            None => true,
        },
        None => true,
    }
}

/// Whether the request leaves both markers at their defaults, which is what
/// activates the fallback pair.
pub open spec fn exec_uses_default_markers(rc_mode: Option<crate::session::RcMode>) -> bool {
    match rc_mode {
        Some(m) => m.marker_prefix is None && m.marker_suffix is None,
        None => true,
    }
}

/// The sentinel prefix an exec request resolves to.
pub open spec fn exec_marker_prefix_spec(rc_mode: Option<crate::session::RcMode>) -> Seq<char> {
    match rc_mode {
        Some(m) => match m.marker_prefix {
            Some(p) => p@,
            None => "\u{001e}RC="@,
        },
        None => "\u{001e}RC="@,
    }
}

/// The sentinel suffix an exec request resolves to.
pub open spec fn exec_marker_suffix_spec(rc_mode: Option<crate::session::RcMode>) -> Seq<char> {
    match rc_mode {
        Some(m) => match m.marker_suffix {
            Some(sfx) => sfx@,
            None => "\u{001f}"@,
        },
        None => "\u{001f}"@,
    }
}

/// The fallback pair an exec request resolves to with the given token:
/// present exactly when capture is on and the default markers are in use.
pub open spec fn exec_fallback_pair_spec(
    rc_mode: Option<crate::session::RcMode>,
    token: Seq<char>,
) -> Option<(Seq<char>, Seq<char>)> {
    if exec_rc_enabled(rc_mode) && exec_uses_default_markers(rc_mode) {
        Some(("PTYCTL_RC_"@ + token + "="@, ":END_"@ + token))
    } else {
        None
    }
}

/// Why an exec loop iteration finishes, in priority order: the terminator
/// matched, the idle gap elapsed, the read or the global deadline ran out,
/// or the stream ended.
#[derive(Debug, Clone, Copy, PartialEq, Eq, Structural)]
pub enum ExecDoneReason {
    MarkerSeen,
    PromptSeen,
    IdleReached,
    Timeout,
    Eof,
}

impl ExecDoneReason {
    /// The wire spelling of the reason.
    pub fn as_str(&self) -> (r: &'static str)
        ensures
            r@ == match *self {
                ExecDoneReason::MarkerSeen => "marker_seen"@,
                ExecDoneReason::PromptSeen => "prompt_seen"@,
                ExecDoneReason::IdleReached => "idle_reached"@,
                ExecDoneReason::Timeout => "timeout"@,
                ExecDoneReason::Eof => "eof"@,
            },
    {
        match self {
            ExecDoneReason::MarkerSeen => "marker_seen",
            ExecDoneReason::PromptSeen => "prompt_seen",
            ExecDoneReason::IdleReached => "idle_reached",
            ExecDoneReason::Timeout => "timeout",
            ExecDoneReason::Eof => "eof",
        }
    }
}

/// Decide whether one exec read finishes the loop, with the priority the
/// protocol fixes: match first, then idle, then timeout, then EOF.
pub fn exec_done_reason(
    matched: bool,
    idle_reached: bool,
    timed_out: bool,
    eof: bool,
    rc_enabled: bool,
) -> (r: Option<ExecDoneReason>)
    ensures
        r == if matched {
            if rc_enabled {
                Some(ExecDoneReason::MarkerSeen)
            } else {
                Some(ExecDoneReason::PromptSeen)
            }
        } else if idle_reached {
            Some(ExecDoneReason::IdleReached)
        } else if timed_out {
            Some(ExecDoneReason::Timeout)
        } else if eof {
            Some(ExecDoneReason::Eof)
        } else {
            None::<ExecDoneReason>
        },
{
    if matched {
        if rc_enabled {
            Some(ExecDoneReason::MarkerSeen)
        } else {
            Some(ExecDoneReason::PromptSeen)
        }
    } else if idle_reached {
        Some(ExecDoneReason::IdleReached)
    } else if timed_out {
        Some(ExecDoneReason::Timeout)
    } else if eof {
        Some(ExecDoneReason::Eof)
    } else {
        None
    }
}

} // verus!
