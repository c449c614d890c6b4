//! Classification of air-quality readings into ordinal severity levels.
//!
//! CO2-equivalent (ppm) and total-VOC (ppb) readings are bucketed into five
//! severity levels through fixed, non-overlapping, half-open ranges. The
//! composite index combines the two dimensions by taking the smaller bucket:
//! the bridge deliberately reports the better of the two signals.

use vstd::prelude::*;

verus! {

/// Severity level of a CO2-equivalent reading in ppm, on the fixed half-open
/// ranges [0,400) -> 1, [400,1000) -> 2, [1000,2000) -> 3, [2000,5000) -> 4,
/// [5000,inf) -> 5.
pub open spec fn spec_co2_bucket(r: u64) -> u8 {
    if r < 400 {
        1
    } else if r < 1000 {
        2
    } else if r < 2000 {
        3
    } else if r < 5000 {
        4
    } else {
        5
    }
}

/// Severity level of a total-VOC reading in ppb, on the fixed half-open
/// ranges [0,25) -> 1, [25,50) -> 2, [50,325) -> 3, [325,500) -> 4,
/// [500,inf) -> 5.
pub open spec fn spec_voc_bucket(r: u64) -> u8 {
    if r < 25 {
        1
    } else if r < 50 {
        2
    } else if r < 325 {
        3
    } else if r < 500 {
        4
    } else {
        5
    }
}

/// The composite air-quality index: the smaller of the two bucket levels.
pub open spec fn spec_composite_index(co2: u64, voc: u64) -> u8 {
    if spec_co2_bucket(co2) <= spec_voc_bucket(voc) {
        spec_co2_bucket(co2)
    } else {
        spec_voc_bucket(voc)
    }
}

/// Buckets a CO2-equivalent reading (ppm) into its severity level.
pub fn co2_bucket(r: u64) -> (b: u8)
    ensures
        b == spec_co2_bucket(r),
        1 <= b <= 5,
{
    if r < 400 {
        1
    } else if r < 1000 {
        2
    } else if r < 2000 {
        3
    } else if r < 5000 {
        4
    } else {
        5
    }
}

/// Buckets a total-VOC reading (ppb) into its severity level.
pub fn voc_bucket(r: u64) -> (b: u8)
    ensures
        b == spec_voc_bucket(r),
        1 <= b <= 5,
{
    if r < 25 {
        1
    } else if r < 50 {
        2
    } else if r < 325 {
        3
    } else if r < 500 {
        4
    } else {
        5
    }
}

/// Derives the composite air-quality index from the two raw readings: the
/// minimum of the CO2 bucket and the VOC bucket.
pub fn composite_index(co2: u64, voc: u64) -> (i: u8)
    ensures
        i == spec_composite_index(co2, voc),
        i <= spec_co2_bucket(co2),
        i <= spec_voc_bucket(voc),
        i == spec_co2_bucket(co2) || i == spec_voc_bucket(voc),
        1 <= i <= 5,
{
    let c = co2_bucket(co2);
    let v = voc_bucket(voc);
    if c <= v {
        c
    } else {
        v
    }
}

/// The CO2 bucket level never decreases as the reading increases.
pub proof fn lemma_co2_bucket_monotonic(r1: u64, r2: u64)
    requires
        r1 <= r2,
    ensures
        spec_co2_bucket(r1) <= spec_co2_bucket(r2),
{
}

/// The VOC bucket level never decreases as the reading increases.
pub proof fn lemma_voc_bucket_monotonic(r1: u64, r2: u64)
    requires
        r1 <= r2,
    ensures
        spec_voc_bucket(r1) <= spec_voc_bucket(r2),
{
}

} // verus!
