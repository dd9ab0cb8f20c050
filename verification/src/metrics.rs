//! The arithmetic of the system monitor: turning raw readings into the
//! normalized thousandth-scale metrics that the reactive effects consume.
//! The sampling itself runs outside the engine; these functions are what
//! it computes between a sample and the published snapshot.

use vstd::prelude::*;

verus! {

/// The floor that the observed maximum network rate never drops below,
/// in bytes per second, so small transfers do not saturate the scale.
pub const MIN_NETWORK_RATE: u64 = 1_000_000;

/// A value clamped to the thousandth scale.
pub open spec fn spec_to_milli_clamped(v: int) -> int {
    if v > 1000 { 1000 } else if v < 0 { 0 } else { v }
}

/// The average CPU fraction in thousandths, from the summed per-core
/// fractions (each already in thousandths) and the core count; a zero
/// core count reads as idle-free division by one.
pub open spec fn spec_cpu_fraction(sum_milli: int, ncpus: int) -> int {
    spec_to_milli_clamped(sum_milli / (if ncpus < 1 { 1 } else { ncpus }))
}

pub fn cpu_fraction(sum_milli: u64, ncpus: u64) -> (r: u32)
    ensures
        r == spec_cpu_fraction(sum_milli as int, ncpus as int),
        r <= 1000,
{
    let n: u64 = if ncpus < 1 { 1 } else { ncpus };
    let avg = sum_milli / n;
    if avg > 1000 { 1000 } else { avg as u32 }
}

/// The used-memory fraction in thousandths; a zero total reads as idle.
pub open spec fn spec_mem_fraction(used: int, total: int) -> int {
    if total <= 0 {
        0
    } else {
        spec_to_milli_clamped(used * 1000 / total)
    }
}

pub fn mem_fraction(used: u64, total: u64) -> (r: u32)
    ensures
        r == spec_mem_fraction(used as int, total as int),
        r <= 1000,
{
    if total == 0 {
        return 0;
    }
    let f = (used as u128) * 1000 / (total as u128);
    proof {
        assert((used as int) * 1000 >= 0) by (nonlinear_arith)
            requires used >= 0u64;
    }
    if f > 1000 {
        1000
    } else {
        f as u32
    }
}

/// A byte count over an interval as a rate in bytes per second; an empty
/// interval reads as one millisecond.
pub open spec fn spec_rate_per_sec(delta_bytes: int, elapsed_ms: int) -> int {
    delta_bytes * 1000 / (if elapsed_ms < 1 { 1 } else { elapsed_ms })
}

pub fn rate_per_sec(delta_bytes: u64, elapsed_ms: u64) -> (r: u64)
    requires
        delta_bytes <= 0xFFFF_FFFF_FFFF,
    ensures
        r == spec_rate_per_sec(delta_bytes as int, elapsed_ms as int),
{
    let e: u64 = if elapsed_ms < 1 { 1 } else { elapsed_ms };
    delta_bytes * 1000 / e
}

/// The running maximum that network rates are normalized against: the
/// larger of the old maximum and the new rate, never below the floor.
pub open spec fn spec_update_max_rate(current_max: int, rate: int) -> int {
    let m = if current_max >= rate { current_max } else { rate };
    if m >= MIN_NETWORK_RATE { m } else { MIN_NETWORK_RATE as int }
}

pub fn update_max_rate(current_max: u64, rate: u64) -> (r: u64)
    ensures
        r == spec_update_max_rate(current_max as int, rate as int),
        r >= MIN_NETWORK_RATE,
{
    let m = if current_max >= rate { current_max } else { rate };
    if m >= MIN_NETWORK_RATE { m } else { MIN_NETWORK_RATE }
}

/// A rate as a fraction of the running maximum, in thousandths, clamped.
pub open spec fn spec_normalize_rate(rate: int, max_rate: int) -> int {
    spec_to_milli_clamped(rate * 1000 / (if max_rate < 1 { 1 } else { max_rate }))
}

pub fn normalize_rate(rate: u64, max_rate: u64) -> (r: u32)
    ensures
        r == spec_normalize_rate(rate as int, max_rate as int),
        r <= 1000,
{
    let m: u64 = if max_rate < 1 { 1 } else { max_rate };
    let f = (rate as u128) * 1000 / (m as u128);
    proof {
        assert((rate as int) * 1000 >= 0) by (nonlinear_arith)
            requires rate >= 0u64;
    }
    if f > 1000 {
        1000
    } else {
        f as u32
    }
}

/// Normalizing against an updated maximum always lands in the unit
/// range, and a rate at or above its maximum reads as full scale.
pub proof fn lemma_normalize_in_range(rate: int, max_rate: int)
    requires
        0 <= rate,
        1 <= max_rate,
    ensures
        0 <= spec_normalize_rate(rate, max_rate) <= 1000,
        rate == max_rate ==> spec_normalize_rate(rate, max_rate) == 1000,
{
    vstd::arithmetic::div_mod::lemma_div_pos_is_pos(rate * 1000, max_rate);
    if rate == max_rate {
        assert(rate * 1000 == 1000 * max_rate) by (nonlinear_arith)
            requires rate == max_rate;
        vstd::arithmetic::div_mod::lemma_div_by_multiple(1000, max_rate);
    }
}

} // verus!
