//! Trusted text operations the option validator relies on.
//!
//! Option keys are matched case-insensitively and watch intervals must parse
//! as durations; both behaviours come from outside code and are named here.
//! The duration parser is called only on plain intervals (see
//! [`plain_interval`]): on wilder inputs its own constructor arithmetic can
//! abort, so the validator screens them out first.

use vstd::prelude::*;
use vstd::string::StrSliceExecFns;

verus! {

/// The lower-cased form of a character sequence, as `str::to_lowercase`
/// computes it. The result depends on the characters alone.
pub uninterp spec fn lower_of(s: Seq<char>) -> Seq<char>;

/// Whether a character sequence parses as a duration, as
/// `humantime::parse_duration` decides it. The result depends on the
/// characters alone.
pub uninterp spec fn duration_parses(s: Seq<char>) -> bool;

/// An ASCII decimal digit, the only digits the duration grammar reads.
pub open spec fn is_digit_char(c: char) -> bool {
    48 <= c as u32 && c as u32 <= 57
}

/// Every character of `t` is an ASCII decimal digit.
pub open spec fn all_digits(t: Seq<char>) -> bool {
    forall|k: int| 0 <= k < t.len() ==> is_digit_char(#[trigger] t[k])
}

/// No ten consecutive characters of `s` are all digits.
pub open spec fn digit_run_free(s: Seq<char>) -> bool {
    forall|i: int| 0 <= i && i + 10 <= s.len() ==> !all_digits(#[trigger] s.subrange(i, i + 10))
}

/// A plain interval: at most 255 characters, with no run of ten consecutive
/// digits. The duration grammar's largest unit is 31 557 600 seconds (a
/// year) and every number it reads without ten digits is below 10^9, so a
/// plain interval can spell out at most a few times 10^16 seconds per term
/// and would need far more than 255 characters to reach the seconds count,
/// 2^64 - 1, at which the parser's final carry can abort. Every interval a
/// container runtime would pass as a watch period is plain.
pub open spec fn plain_interval(s: Seq<char>) -> bool {
    s.len() <= 255 && digit_run_free(s)
}

/// Whether `s` is a plain interval: short enough, with no ten-digit run.
pub fn is_plain_interval(s: &str) -> (r: bool)
    ensures
        r == plain_interval(s@),
{
    let n = s.unicode_len();
    if n > 255 {
        return false;
    }
    let mut run: usize = 0;
    for i in 0..n
        invariant
            n == s@.len(),
            run <= i,
            run < 10,
            forall|k: int| i - run <= k < i ==> is_digit_char(#[trigger] s@[k]),
            run < i ==> !is_digit_char(s@[i - run - 1]),
            forall|a: int|
                0 <= a && a + 10 <= i ==> !all_digits(#[trigger] s@.subrange(a, a + 10)),
    {
        let ghost run0 = run as int;
        let c = s.get_char(i);
        let u = c as u32;
        if 48 <= u && u <= 57 {
            run = run + 1;
            if run == 10 {
                proof {
                    let w = s@.subrange(i - 9, i - 9 + 10);
                    assert forall|k: int| 0 <= k < w.len() implies is_digit_char(
                        #[trigger] w[k],
                    ) by {
                        assert(w[k] == s@[i - 9 + k]);
                        if k < 9 {
                            assert(i - run0 <= i - 9 + k < i);
                        } else {
                            assert(s@[i - 9 + k] == c);
                        }
                    }
                    assert(!digit_run_free(s@));
                }
                return false;
            }
        } else {
            run = 0;
        }
        proof {
            assert forall|a: int|
                0 <= a && a + 10 <= i + 1 implies !all_digits(
                #[trigger] s@.subrange(a, a + 10),
            ) by {
                if a + 10 == i + 1 {
                    let p = i - run;
                    if is_digit_char(s@[i as int]) {
                        assert(run == run0 + 1);
                        assert(run0 < i);
                        assert(!is_digit_char(s@[p]));
                    } else {
                        assert(s@[i as int] == c);
                        assert(p == i);
                        assert(!is_digit_char(s@[p]));
                    }
                    assert(a <= p <= i);
                    assert(s@.subrange(a, a + 10)[p - a] == s@[p]);
                }
            }
        }
    }
    true
}

/// Relies on `str::to_lowercase`: returns the lower-cased form of `s`,
/// a function of the characters of `s` alone.
#[verifier::external_body]
pub(crate) fn to_lowercase(s: &str) -> (r: String)
    ensures
        r@ == lower_of(s@),
{
    s.to_lowercase()
}

/// Relies on `humantime::parse_duration`: returns whether `s` parses as a
/// duration, a function of the characters of `s` alone. The parser reports
/// failure through its `Result` and its term arithmetic is checked, but its
/// final carry constructs `Duration::new(sec, 1_000_000_000)` when the
/// subsecond total lands on exactly one second, which aborts if `sec` is
/// 2^64 - 1; a plain interval (too short to spell that seconds count) can
/// never reach that carry, so on the admitted inputs the call returns.
#[verifier::external_body]
pub(crate) fn parses_as_duration(s: &str) -> (r: bool)
    requires
        plain_interval(s@),
    ensures
        r == duration_parses(s@),
{
    humantime::parse_duration(s).is_ok()
}

} // verus!
