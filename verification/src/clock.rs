//! The monotonic clock of the standard library, and the length of a
//! `Duration` in nanoseconds. Nothing in this file is proved: it states what
//! the library relies on.

use std::time::{Duration, Instant};
use vstd::prelude::*;

verus! {

/// A point on the monotonic clock. Nothing inside it is visible to proofs.
#[verifier::external_type_specification]
#[verifier::external_body]
pub struct ExInstant(Instant);

/// The whole length of a `Duration` in nanoseconds, as `Duration::as_nanos`
/// gives it.
pub uninterp spec fn nanos_of(d: Duration) -> u128;

/// `Instant::elapsed`: the time that has passed since the instant was taken.
/// It reads the clock, so nothing is claimed of the value.
pub assume_specification[ Instant::elapsed ](at: &Instant) -> (age: Duration)
;

/// `Duration::as_nanos`: the length of the duration in nanoseconds. The
/// claim is only that the result is the length that `nanos_of` names: the
/// same duration always has the same length.
pub assume_specification[ Duration::as_nanos ](d: &Duration) -> (n: u128)
    ensures
        n == nanos_of(*d),
;

} // verus!
