//! A verified scanner for the one text pattern the bot recognizes: a fixed
//! prefix followed by a run of decimal digits (optionally required to end
//! with a dash).  This is the grammar behind lesson urls in chat messages,
//! lesson urls in search results, and facility urls in lesson metadata.

use vstd::prelude::*;

use crate::ids::is_digit;

verus! {

/// The end of the run of digit characters starting at `j`.
pub open spec fn digit_run_end(s: Seq<char>, j: int) -> int
    recommends
        0 <= j <= s.len(),
    decreases s.len() - j,
        when 0 <= j <= s.len()
{
    if j < s.len() && is_digit(s[j]) {
        digit_run_end(s, j + 1)
    } else {
        j
    }
}

proof fn lemma_digit_run_end(s: Seq<char>, j: int)
    requires
        0 <= j <= s.len(),
    ensures
        j <= digit_run_end(s, j) <= s.len(),
        forall|k: int| j <= k < digit_run_end(s, j) ==> is_digit(#[trigger] s[k]),
        digit_run_end(s, j) < s.len() ==> !is_digit(s[digit_run_end(s, j)]),
    decreases s.len() - j,
{
    if j < s.len() && is_digit(s[j]) {
        lemma_digit_run_end(s, j + 1);
    }
}

/// Whether the pattern matches at position `i`: the prefix `p`, then at
/// least one digit, and, when `dash` is set, a dash right after the run
/// of digits.
pub open spec fn pattern_match_at(s: Seq<char>, p: Seq<char>, dash: bool, i: int) -> bool {
    &&& 0 <= i
    &&& i + p.len() + 1 <= s.len()
    &&& s.subrange(i, i + p.len()) == p
    &&& is_digit(s[i + p.len()])
    &&& (dash ==> {
        let e = digit_run_end(s, i + p.len());
        e < s.len() && s[e] == '-'
    })
}

/// The first position at or after `i` where the pattern matches.
pub open spec fn first_match_from(s: Seq<char>, p: Seq<char>, dash: bool, i: int) -> Option<int>
    recommends
        0 <= i,
    decreases s.len() - i,
        when 0 <= i
{
    if i + p.len() + 1 > s.len() {
        None
    } else if pattern_match_at(s, p, dash, i) {
        Some(i)
    } else {
        first_match_from(s, p, dash, i + 1)
    }
}

/// The digits captured by the first match of the pattern, if any.
pub open spec fn captured_digits(s: Seq<char>, p: Seq<char>, dash: bool) -> Option<Seq<char>> {
    match first_match_from(s, p, dash, 0) {
        Some(i) => Some(s.subrange(i + p.len(), digit_run_end(s, i + p.len()))),
        None => None,
    }
}

/// What is captured is a non-empty string of digits.
pub proof fn lemma_captured_digits_shape(s: Seq<char>, p: Seq<char>, dash: bool)
    requires
        captured_digits(s, p, dash) is Some,
    ensures
        ({
            let d = captured_digits(s, p, dash)->Some_0;
            d.len() > 0 && forall|k: int| 0 <= k < d.len() ==> is_digit(#[trigger] d[k])
        }),
{
    let i = first_match_from(s, p, dash, 0)->Some_0;
    lemma_first_match_bounds(s, p, dash, 0);
    lemma_digit_run_end(s, i + p.len());
    assert(digit_run_end(s, i + p.len()) > i + p.len());
}

proof fn lemma_first_match_bounds(s: Seq<char>, p: Seq<char>, dash: bool, i: int)
    requires
        0 <= i,
        first_match_from(s, p, dash, i) is Some,
    ensures
        ({
            let m = first_match_from(s, p, dash, i)->Some_0;
            i <= m && pattern_match_at(s, p, dash, m)
        }),
    decreases s.len() - i,
{
    if i + p.len() + 1 > s.len() {
    } else if pattern_match_at(s, p, dash, i) {
    } else {
        lemma_first_match_bounds(s, p, dash, i + 1);
    }
}

/// Scans `s` for the fixed prefix followed by digits (and a trailing dash
/// when `dash` is set); returns the digits of the first match.
pub fn find_digit_capture(s: &str, prefix: &str, dash: bool) -> (r: Option<String>)
    requires
        prefix@.len() >= 1,
    ensures
        match captured_digits(s@, prefix@, dash) {
            Some(d) => r matches Some(c) && c@ == d,
            None => r is None,
        },
{
    let n = s.unicode_len();
    let plen = prefix.unicode_len();
    let mut i: usize = 0;
    loop
        invariant
            0 <= i,
            n == s@.len(),
            plen == prefix@.len(),
            plen >= 1,
            i <= n + 1,
            first_match_from(s@, prefix@, dash, 0) == first_match_from(
                s@,
                prefix@,
                dash,
                i as int,
            ),
        decreases n + 2 - i,
    {
        if !(i < n && n - i > plen) {
            proof {
                assert(i + plen + 1 > n);
                assert(first_match_from(s@, prefix@, dash, i as int) is None);
            }
            return None;
        }
        // Compare the prefix at position i.
        let mut k: usize = 0;
        let mut matched = true;
        while k < plen
            invariant_except_break
                matched,
            invariant
                0 <= k <= plen,
                n == s@.len(),
                plen == prefix@.len(),
                i + plen + 1 <= n,
                matched ==> s@.subrange(i as int, i + k) =~= prefix@.take(k as int),
            ensures
                n == s@.len(),
                plen == prefix@.len(),
                matched ==> s@.subrange(i as int, i + plen) =~= prefix@,
                !matched ==> s@.subrange(i as int, i + plen) != prefix@,
            decreases plen - k,
        {
            if s.get_char(i + k) != prefix.get_char(k) {
                proof {
                    assert(s@.subrange(i as int, i + plen)[k as int] == s@[i + k]);
                }
                matched = false;
                break ;
            }
            proof {
                assert(s@.subrange(i as int, i + k + 1) =~= s@.subrange(i as int, i + k).push(
                    s@[i + k],
                ));
                assert(prefix@.take(k + 1) =~= prefix@.take(k as int).push(prefix@[k as int]));
            }
            k = k + 1;
        }
        if matched {
            let c = s.get_char(i + plen);
            if c >= '0' && c <= '9' {
                // A digit follows the prefix: find the end of the run.
                let start = i + plen;
                let mut j: usize = start + 1;
                while j < n
                    invariant
                        start + 1 <= j <= n,
                        n == s@.len(),
                        forall|t: int| start <= t < j ==> is_digit(#[trigger] s@[t]),
                    ensures
                        start + 1 <= j <= n,
                        n == s@.len(),
                        forall|t: int| start <= t < j ==> is_digit(#[trigger] s@[t]),
                        j < n ==> !is_digit(s@[j as int]),
                    decreases n - j,
                {
                    let cj = s.get_char(j);
                    if !(cj >= '0' && cj <= '9') {
                        break ;
                    }
                    j = j + 1;
                }
                proof {
                    lemma_run_end_from_scan(s@, start as int, j as int);
                }
                let hit = if !dash {
                    true
                } else if j < n {
                    s.get_char(j) == '-'
                } else {
                    false
                };
                if hit {
                    proof {
                        assert(pattern_match_at(s@, prefix@, dash, i as int));
                        lemma_first_match_at(s@, prefix@, dash, i as int);
                    }
                    let cap = s.substring_char(start, j);
                    return Some(cap.to_owned());
                }
                proof {
                    assert(!pattern_match_at(s@, prefix@, dash, i as int));
                }
            } else {
                proof {
                    assert(!pattern_match_at(s@, prefix@, dash, i as int));
                }
            }
        } else {
            proof {
                assert(!pattern_match_at(s@, prefix@, dash, i as int));
            }
        }
        i = i + 1;
    }
}

/// A scan that stopped at `j` with digits throughout `[start, j)` found
/// exactly the run end.
proof fn lemma_run_end_from_scan(s: Seq<char>, start: int, j: int)
    requires
        0 <= start <= j <= s.len(),
        forall|t: int| start <= t < j ==> is_digit(#[trigger] s[t]),
        j < s.len() ==> !is_digit(s[j]),
    ensures
        digit_run_end(s, start) == j,
    decreases j - start,
{
    if start < j {
        lemma_run_end_from_scan(s, start + 1, j);
    }
}

proof fn lemma_first_match_at(s: Seq<char>, p: Seq<char>, dash: bool, i: int)
    requires
        0 <= i,
        pattern_match_at(s, p, dash, i),
    ensures
        first_match_from(s, p, dash, i) == Some(i),
{
}

} // verus!
