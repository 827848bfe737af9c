//! The one outside call the game logic makes: drawing a random boolean
//! to pick which side the ball is sent to.

use vstd::prelude::*;

verus! {

/// Relies on rand::random: a fresh sample from the thread-local
/// generator. Nothing can be promised of a random value, so no clause
/// is stated; every caller says what holds of either outcome.
pub assume_specification<T>[ rand::random::<T> ]() -> (r: T)
    where
        rand::distributions::Standard: rand::distributions::Distribution<T>,
;

} // verus!
