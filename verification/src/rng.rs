//! The one randomness source of the core. Everything the simulation does
//! with a draw is verified downstream of it, for every possible value.

use vstd::prelude::*;

verus! {

/// Relies on rand::random: draws one sample of the requested type from the
/// thread-local generator. Nothing holds of the value, so nothing is
/// promised of it.
pub assume_specification<T>[ rand::random::<T> ]() -> (r: T)
    where
        rand::distributions::Standard: rand::distributions::Distribution<T>,
;

/// One fresh pseudo-random draw. To the verifier two calls may differ;
/// callers state what holds of every outcome.
pub(crate) fn random_u32() -> u32 {
    rand::random::<u32>()
}

} // verus!
