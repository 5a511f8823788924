use vstd::prelude::*;
use vstd::arithmetic::div_mod::{lemma_div_denominator, lemma_div_multiples_vanish};

verus! {

/// One timed measurement: the swept message size in bytes and the wall
/// time, in nanoseconds, of the whole tight loop of repetitions at that
/// size.
#[derive(Debug, Clone, Copy, PartialEq, Eq, Structural)]
pub struct TimingSample {
    pub size: usize,
    pub elapsed_ns: u64,
}

/// Average per-operation latency in hundredths of a microsecond,
/// rounded down: elapsed / ntimes, converted from nanoseconds to
/// microseconds and scaled by 100 for two decimal places.
pub open spec fn spec_latency_centi_us(elapsed_ns: int, ntimes: int) -> int {
    (elapsed_ns * 100) / (ntimes * 1000)
}

/// Bandwidth in hundredths of a mebibyte per second, rounded down:
/// size * ntimes bytes moved over elapsed nanoseconds, converted to
/// MiB/s and scaled by 100 for two decimal places.
pub open spec fn spec_bandwidth_centi_mib(size: int, ntimes: int, elapsed_ns: int) -> int {
    (size * ntimes * 100_000_000_000) / (elapsed_ns * 1_048_576)
}

/// Exact average per-operation latency in seconds, as the fraction
/// numerator / denominator, before any rounding.
pub open spec fn latency_secs_frac(elapsed_ns: int, ntimes: int) -> (int, int) {
    (elapsed_ns, ntimes * 1_000_000_000)
}

/// Exact bandwidth in bytes per second, as the fraction
/// numerator / denominator, before any rounding.
pub open spec fn bandwidth_bytes_per_sec_frac(size: int, ntimes: int, elapsed_ns: int) -> (
    int,
    int,
) {
    (size * ntimes * 1_000_000_000, elapsed_ns)
}

/// The two fractions denote the same rational number.
pub open spec fn frac_eq(a: (int, int), b: (int, int)) -> bool {
    a.0 * b.1 == b.0 * a.1
}

/// Division of fractions.
pub open spec fn frac_div(a: (int, int), b: (int, int)) -> (int, int) {
    (a.0 * b.1, a.1 * b.0)
}

/// Law: bandwidth equals bytes-per-operation divided by per-operation
/// latency, in one consistent unit system (bytes and seconds), for
/// every size, positive repetition count and positive elapsed time.
pub proof fn lemma_bandwidth_is_size_over_latency(size: int, ntimes: int, elapsed_ns: int)
    requires
        ntimes > 0,
        elapsed_ns > 0,
    ensures
        frac_eq(
            bandwidth_bytes_per_sec_frac(size, ntimes, elapsed_ns),
            frac_div((size, 1), latency_secs_frac(elapsed_ns, ntimes)),
        ),
{
    assert((size * ntimes * 1_000_000_000) * (1 * elapsed_ns) == (size * (ntimes * 1_000_000_000))
        * elapsed_ns) by (nonlinear_arith);
}

/// Law: the reported latency figure is the floor of the exact latency
/// fraction expressed in hundredths of a microsecond, so the rounded
/// figure and the exact fraction agree on units.
pub proof fn lemma_latency_centi_us_consistent(elapsed_ns: int, ntimes: int)
    requires
        elapsed_ns >= 0,
        ntimes > 0,
    ensures
        spec_latency_centi_us(elapsed_ns, ntimes) == (latency_secs_frac(elapsed_ns, ntimes).0 * 100
            * 1_000_000) / latency_secs_frac(elapsed_ns, ntimes).1,
{
    let x = elapsed_ns * 100 * 1_000_000;
    assert(ntimes * 1_000_000_000 == 1_000_000 * (ntimes * 1000)) by (nonlinear_arith);
    lemma_div_denominator(x, 1_000_000, ntimes * 1000);
    assert(x == 1_000_000 * (elapsed_ns * 100));
    lemma_div_multiples_vanish(elapsed_ns * 100, 1_000_000);
}

/// Law: the reported bandwidth figure is the floor of the exact
/// bytes-per-second fraction converted to hundredths of a mebibyte
/// per second, so the rounded figure and the exact fraction agree on
/// units as well.
pub proof fn lemma_bandwidth_centi_mib_consistent(size: int, ntimes: int, elapsed_ns: int)
    ensures
        spec_bandwidth_centi_mib(size, ntimes, elapsed_ns) == (bandwidth_bytes_per_sec_frac(
            size,
            ntimes,
            elapsed_ns,
        ).0 * 100) / (bandwidth_bytes_per_sec_frac(size, ntimes, elapsed_ns).1 * 1_048_576),
{
    assert(size * ntimes * 100_000_000_000 == (size * ntimes * 1_000_000_000) * 100)
        by (nonlinear_arith);
}

/// Average per-operation latency in hundredths of a microsecond.
pub fn latency_centi_us(elapsed_ns: u64, ntimes: usize) -> (r: u128)
    requires
        ntimes > 0,
    ensures
        r == spec_latency_centi_us(elapsed_ns as int, ntimes as int),
{
    (elapsed_ns as u128 * 100) / (ntimes as u128 * 1000)
}

/// Bandwidth in hundredths of a mebibyte per second.
pub fn bandwidth_centi_mib(size: usize, ntimes: usize, elapsed_ns: u64) -> (r: u128)
    requires
        elapsed_ns > 0,
        size * ntimes * 100_000_000_000 <= u128::MAX,
    ensures
        r == spec_bandwidth_centi_mib(size as int, ntimes as int, elapsed_ns as int),
{
    proof {
        assert(size * ntimes <= size * ntimes * 100_000_000_000) by (nonlinear_arith)
            requires
                size >= 0,
                ntimes >= 0,
        ;
    }
    let bytes: u128 = size as u128 * ntimes as u128;
    (bytes * 100_000_000_000) / (elapsed_ns as u128 * 1_048_576)
}

/// Total elapsed time in whole microseconds, rounded down.
pub fn elapsed_whole_us(elapsed_ns: u64) -> (r: u64)
    ensures
        r == elapsed_ns as int / 1000,
{
    elapsed_ns / 1000
}

} // verus!
