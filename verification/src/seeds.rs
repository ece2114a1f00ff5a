//! Seeding a Monte Carlo path's return draws: each (seed, path, period)
//! triple gets its own reproducible 64-bit seed, so paths need no shared
//! random state and can run in parallel.
use vstd::prelude::*;

verus! {

/// The SplitMix64 finalizer (Steele, Lea and Flood): add the golden-ratio
/// increment, then two xor-shift-multiply rounds and a final xor-shift, all
/// modulo 2^64.
pub open spec fn spec_splitmix64(x: u64) -> u64 {
    let x1 = x.wrapping_add(0x9E3779B97F4A7C15u64);
    let z1 = (x1 ^ (x1 >> 30u64)).wrapping_mul(0xBF58476D1CE4E5B9u64);
    let z2 = (z1 ^ (z1 >> 27u64)).wrapping_mul(0x94D049BB133111EBu64);
    z2 ^ (z2 >> 31u64)
}

/// One seed from three identifiers: the run's seed, the path, the period.
pub open spec fn spec_mix_seed(seed: u64, path_id: u64, period: u64) -> u64 {
    spec_splitmix64(spec_splitmix64(seed ^ path_id) ^ period)
}

/// SplitMix64 finalizer, combining identifiers into one well-distributed
/// 64-bit seed.
pub fn splitmix64(x: u64) -> (r: u64)
    ensures
        r == spec_splitmix64(x),
{
    let x1 = x.wrapping_add(0x9E3779B97F4A7C15u64);
    let mut z = x1;
    z = (z ^ (z >> 30u64)).wrapping_mul(0xBF58476D1CE4E5B9u64);
    z = (z ^ (z >> 27u64)).wrapping_mul(0x94D049BB133111EBu64);
    z ^ (z >> 31u64)
}

/// The seed a path's draw for one period is taken from.
pub fn mix_seed(seed: u64, path_id: u64, period: u64) -> (r: u64)
    ensures
        r == spec_mix_seed(seed, path_id, period),
{
    splitmix64(splitmix64(seed ^ path_id) ^ period)
}

} // verus!
