//! Why a reading yields no frames.

use vstd::prelude::*;

verus! {

/// The two ways in which a reading is refused. Either way no frame is built.
#[derive(Clone, Copy, Debug, PartialEq, Eq, Structural)]
pub enum EncodeError {
    /// The reading carries no timestamp: none was ever taken.
    MissingTimestamp,
    /// The reading is as old as the timeout or older. Both in nanoseconds.
    StaleData { elapsed: u128, timeout: u128 },
}

/// Whether a reading of the given age may be used: `age` is `None` where the
/// reading has no timestamp, and a reading must be strictly younger than
/// `timeout`.
pub open spec fn freshness(age: Option<u128>, timeout: u128) -> Result<(), EncodeError> {
    match age {
        None => Err(EncodeError::MissingTimestamp),
        Some(elapsed) => if elapsed < timeout {
            Ok(())
        } else {
            Err(EncodeError::StaleData { elapsed, timeout })
        },
    }
}

/// Decides whether a reading of the given age may be used.
pub fn check_freshness(age: Option<u128>, timeout: u128) -> (r: Result<(), EncodeError>)
    ensures
        r == freshness(age, timeout),
{
    match age {
        None => Err(EncodeError::MissingTimestamp),
        Some(elapsed) => if elapsed < timeout {
            Ok(())
        } else {
            Err(EncodeError::StaleData { elapsed, timeout })
        },
    }
}

} // verus!
