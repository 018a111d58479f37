//! Wall-clock time, as the profiler and the progress reporter read it.
//!
//! `std::time::Duration` is an exact count of nanoseconds, and every
//! contract in this crate that speaks of a duration speaks of that count,
//! [`nanos_of`]. The functions below are the std operations the crate uses,
//! each stated over it.

use vstd::prelude::*;
use std::time::{Duration, Instant};

verus! {

/// `Instant` is a reading of the monotonic clock; nothing is known of its
/// value, and nothing in this crate needs to be.
#[verifier::external_type_specification]
#[verifier::external_body]
pub struct ExInstant(std::time::Instant);

/// Name for what `Duration::as_nanos` returns: the total number of whole
/// nanoseconds a duration holds.
pub uninterp spec fn nanos_of(d: Duration) -> u128;

/// Nanoseconds in `Duration::MAX`, which std documents as
/// `Duration::new(u64::MAX, 1_000_000_000 - 1)`.
pub open spec fn max_duration_nanos() -> int {
    18446744073709551615int * 1_000_000_000int + 999_999_999int
}

/// A duration's nanosecond count divided by `count`, rounded down, or zero
/// for a count of zero.
pub open spec fn floor_div(n: int, count: int) -> int {
    if count == 0 { 0 } else { n / count }
}

/// The nanoseconds of every duration in `s`, added up.
pub open spec fn nanos_sum(s: Seq<Duration>) -> int
    decreases s.len(),
{
    if s.len() == 0 {
        0
    } else {
        nanos_sum(s.drop_last()) + nanos_of(s.last())
    }
}

/// A sum of durations is at least each of its terms and at least each of its
/// prefixes.
pub proof fn lemma_nanos_sum_bounds(s: Seq<Duration>, i: int)
    requires
        0 <= i <= s.len(),
    ensures
        nanos_sum(s.take(i)) <= nanos_sum(s),
        i < s.len() ==> nanos_sum(s.take(i)) + nanos_of(s[i]) == nanos_sum(s.take(i + 1)),
        i < s.len() ==> nanos_of(s[i]) <= nanos_sum(s),
        nanos_sum(s) >= 0,
    decreases s.len(),
{
    if s.len() > 0 {
        if i < s.len() {
            assert(s.take(i + 1).drop_last() =~= s.take(i));
        }
        if i == s.len() {
            assert(s.take(i) =~= s);
            lemma_nanos_sum_bounds(s.drop_last(), 0);
        } else {
            assert(s.drop_last().take(i) =~= s.take(i));
            lemma_nanos_sum_bounds(s.drop_last(), i);
            if i == s.len() - 1 {
                assert(s.drop_last() =~= s.take(i));
            } else {
                assert(s.drop_last()[i] == s[i]);
            }
        }
    }
}

/// A list of zero durations sums to zero.
pub proof fn lemma_nanos_sum_zero(s: Seq<Duration>)
    requires
        forall|i: int| 0 <= i < s.len() ==> nanos_of(#[trigger] s[i]) == 0,
    ensures
        nanos_sum(s) == 0,
    decreases s.len(),
{
    if s.len() > 0 {
        assert forall|i: int| 0 <= i < s.len() - 1 implies nanos_of(#[trigger] s.drop_last()[i]) == 0 by {
            assert(s.drop_last()[i] == s[i]);
        }
        lemma_nanos_sum_zero(s.drop_last());
    }
}

/// Adding two lists of durations point by point adds their sums.
pub proof fn lemma_nanos_sum_pointwise(a: Seq<Duration>, b: Seq<Duration>, c: Seq<Duration>)
    requires
        a.len() == b.len(),
        b.len() == c.len(),
        forall|i: int| 0 <= i < c.len() ==> nanos_of(#[trigger] c[i]) == nanos_of(a[i]) + nanos_of(b[i]),
    ensures
        nanos_sum(c) == nanos_sum(a) + nanos_sum(b),
    decreases c.len(),
{
    if c.len() > 0 {
        let n = c.len() - 1;
        assert forall|i: int| 0 <= i < n implies nanos_of(#[trigger] c.drop_last()[i]) == nanos_of(a.drop_last()[i]) + nanos_of(b.drop_last()[i]) by {
            assert(c.drop_last()[i] == c[i]);
        }
        lemma_nanos_sum_pointwise(a.drop_last(), b.drop_last(), c.drop_last());
        assert(nanos_of(c[n]) == nanos_of(a[n]) + nanos_of(b[n]));
    }
}

/// Two lists that agree everywhere but at `i` differ in their sums by what
/// they differ by at `i`.
pub proof fn lemma_nanos_sum_update(s: Seq<Duration>, i: int, d: Duration)
    requires
        0 <= i < s.len(),
    ensures
        nanos_sum(s.update(i, d)) == nanos_sum(s) - nanos_of(s[i]) + nanos_of(d),
    decreases s.len(),
{
    let n = s.len() - 1;
    if i == n {
        assert(s.update(i, d).drop_last() =~= s.drop_last());
    } else {
        assert(s.update(i, d).drop_last() =~= s.drop_last().update(i, d));
        lemma_nanos_sum_update(s.drop_last(), i, d);
    }
}

/// The nanoseconds of every duration in `ds`, added up; a short list's sum
/// always fits in a `u128`.
pub fn total_nanos(ds: &[Duration]) -> (n: u128)
    requires
        ds@.len() <= 16,
    ensures
        n == nanos_sum(ds@),
        n <= ds@.len() * max_duration_nanos(),
        n <= 16 * max_duration_nanos(),
{
    let mut total: u128 = 0;
    let mut i: usize = 0;
    while i < ds.len()
        invariant
            0 <= i <= ds@.len(),
            ds@.len() <= 16,
            total == nanos_sum(ds@.take(i as int)),
            total <= i * max_duration_nanos(),
        decreases ds@.len() - i,
    {
        proof {
            lemma_nanos_sum_bounds(ds@, i as int);
        }
        let d = as_nanos(ds[i]);
        proof {
            let m = max_duration_nanos();
            assert(i * m + m == (i + 1) * m) by (nonlinear_arith);
            assert(i * m <= 15 * m) by (nonlinear_arith)
                requires
                    i <= 15,
                    m >= 0,
            ;
        }
        total = total + d;
        i = i + 1;
    }
    assert(ds@.take(ds@.len() as int) =~= ds@);
    proof {
        let m = max_duration_nanos();
        assert(ds@.len() * m <= 16 * m) by (nonlinear_arith)
            requires
                ds@.len() <= 16,
                m >= 0,
        ;
    }
    total
}

/// `Duration::as_nanos`: the total number of whole nanoseconds in `d`. No
/// duration exceeds `Duration::MAX`.
#[verifier::external_body]
pub fn as_nanos(d: Duration) -> (n: u128)
    ensures
        n == nanos_of(d),
        n <= max_duration_nanos(),
{
    d.as_nanos()
}

/// `Duration::ZERO`: a duration of zero time.
#[verifier::external_body]
pub fn zero() -> (d: Duration)
    ensures
        nanos_of(d) == 0,
{
    Duration::ZERO
}

/// `Duration + Duration`, which panics when the sum passes `Duration::MAX`;
/// this wrapper is only called where it does not.
#[verifier::external_body]
pub fn add_durations(a: Duration, b: Duration) -> (c: Duration)
    requires
        nanos_of(a) + nanos_of(b) <= max_duration_nanos(),
    ensures
        nanos_of(c) == nanos_of(a) + nanos_of(b),
{
    a + b
}

/// `Duration::saturating_sub`: `a - b`, or zero where that would be
/// negative.
#[verifier::external_body]
pub fn saturating_sub(a: Duration, b: Duration) -> (c: Duration)
    ensures
        nanos_of(c) == if nanos_of(a) >= nanos_of(b) { nanos_of(a) - nanos_of(b) } else { 0 },
{
    a.saturating_sub(b)
}

/// `Duration::new`: a duration of `secs` whole seconds and `nanos` more
/// nanoseconds. It panics only when the nanoseconds carry past `u64::MAX`
/// seconds, which a count below one second never does.
#[verifier::external_body]
pub fn duration_new(secs: u64, nanos: u32) -> (d: Duration)
    requires
        nanos < 1_000_000_000,
    ensures
        nanos_of(d) == secs * 1_000_000_000 + nanos,
{
    Duration::new(secs, nanos)
}

/// `Instant::now`: the clock as it reads now. Nothing is promised of the
/// reading.
#[verifier::external_body]
pub fn now() -> Instant {
    Instant::now()
}

/// `Instant::elapsed`: the time since `since` was read. It depends on the
/// clock, so nothing is promised beyond what holds of every duration: it is
/// no longer than `Duration::MAX`.
#[verifier::external_body]
pub fn elapsed(since: &Instant) -> (d: Duration)
    ensures
        nanos_of(d) <= max_duration_nanos(),
{
    since.elapsed()
}

/// `std::hint::black_box` on a clock reading, so that a loop that only reads
/// the clock is not folded away.
#[verifier::external_body]
pub fn keep_reading(reading: Instant) {
    std::hint::black_box(reading);
}

} // verus!
