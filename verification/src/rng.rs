//! The random-choice source, used only for uniform selection among candidates.

use vstd::prelude::*;

verus! {

/// Relies on rand::random: draws a machine-random value.
/// Nothing is promised of the result; callers state what holds of every outcome.
#[verifier::external_body]
pub(crate) fn random_u64() -> u64 {
    rand::random::<u64>()
}

/// Draws an index uniformly below `n`.
pub(crate) fn pick_index(n: usize) -> (r: usize)
    requires
        n > 0,
    ensures
        r < n,
{
    let x = random_u64();
    (x % (n as u64)) as usize
}

/// One step of the deterministic generator walked by the injected
/// random-choice source: a 64-bit xorshift.
pub open spec fn next_rng_spec(s: u64) -> u64 {
    let a = s ^ (s << 13);
    let b = a ^ (a >> 7);
    b ^ (b << 17)
}

/// Advances the deterministic generator by one step.
pub fn next_rng(s: u64) -> (r: u64)
    ensures
        r == next_rng_spec(s),
{
    let a = s ^ (s << 13);
    let b = a ^ (a >> 7);
    b ^ (b << 17)
}

} // verus!
