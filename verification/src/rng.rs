//! The session's source of pseudo-randomness and its one-time seeding.
//!
//! The generator is `oorandom::Rand32`, held in the session as the plain pair
//! of 64-bit words that `Rand32::state` exposes, so that every contract can
//! speak of the generator's state as ordinary values.

use vstd::prelude::*;

verus! {

/// The internal state that `oorandom::Rand32::new` reaches from the given
/// seed, as `Rand32::state` exposes it. Seeding is a pure function of the
/// seed alone.
pub uninterp spec fn rand32_seed_state(seed: u64) -> (u64, u64);

/// The pair (advanced state, drawn value) that `oorandom::Rand32::rand_range`
/// computes when drawing from `0..bound` at the given state. The draw is a
/// pure function of the state and the bound alone.
pub uninterp spec fn rand32_draw(state: (u64, u64), bound: u32) -> ((u64, u64), u32);

/// Relies on oorandom::Rand32::new and Rand32::state: constructing a
/// generator from a seed is deterministic, so the state reached is a
/// function of the seed alone.
#[verifier::external_body]
pub(crate) fn seed_rng(seed: u64) -> (r: (u64, u64))
    ensures
        r == rand32_seed_state(seed),
{
    oorandom::Rand32::new(seed).state()
}

/// Relies on oorandom::Rand32::{from_state, rand_range, state}: drawing from
/// the nonempty range `0..bound` is deterministic in the starting state and
/// the bound, the drawn value lies below the bound, and the second state word
/// (the stream selector) is never written.
#[verifier::external_body]
pub(crate) fn draw_below(state: u64, inc: u64, bound: u32) -> (r: ((u64, u64), u32))
    requires
        1 <= bound,
    ensures
        r == rand32_draw((state, inc), bound),
        r.1 < bound,
        r.0.1 == inc,
{
    let mut rng = oorandom::Rand32::from_state((state, inc));
    let value = rng.rand_range(0..bound);
    (rng.state(), value)
}

/// Relies on getrandom::u64: a value from the system entropy source, or
/// `None` when the source fails. Nothing is assumed about the value.
#[verifier::external_body]
pub(crate) fn entropy_seed() -> (r: Option<u64>) {
    match getrandom::u64() {
        Ok(v) => Some(v),
        Err(_) => None,
    }
}

} // verus!
