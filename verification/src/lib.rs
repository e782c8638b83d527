//! Frames of the PylonTech battery protocol, built from one telemetry
//! reading of a battery management system.
//!
//! A reading is turned into six CAN frames, each an identifier with its
//! payload, provided that the reading is recent enough. Every 16-bit field
//! travels low byte first.

use crate::clock::nanos_of;
use crate::error::EncodeError;
use crate::fields::fields_of;
use crate::frames::{encode_spec, frames_at_age, frames_of, outcome_is};
use crate::snapshot::TelemetrySnapshot;
use std::time::Duration;
use vstd::prelude::*;

pub mod clock;
pub mod error;
pub mod fields;
pub mod frames;
pub mod laws;
pub mod snapshot;
pub mod wire;

verus! {

/// Encodes a reading as it stands now: its age is read off the clock.
///
/// A reading without a timestamp is refused, and so is one that has reached
/// the age `timeout`. A fresh reading gives the six frames in their fixed
/// order. Which of the two a timestamp leads to depends on the clock; the
/// outcome is in every case that of [`frames_at_age`] for some age, with
/// `timeout` in nanoseconds.
pub fn custom_frames(
    bmsdata: TelemetrySnapshot,
    charger_volts_high: Option<u16>,
    charger_volts_low: Option<u16>,
    timeout: Duration,
) -> (r: Result<Vec<(u16, Vec<u8>)>, EncodeError>)
    ensures
        bmsdata.timestamp is None ==> r == Err::<Vec<(u16, Vec<u8>)>, EncodeError>(
            EncodeError::MissingTimestamp,
        ),
        bmsdata.timestamp is Some ==> exists|age: u128| #[trigger]
            outcome_is(
                r,
                encode_spec(
                    bmsdata,
                    charger_volts_high,
                    charger_volts_low,
                    Some(age),
                    nanos_of(timeout),
                ),
            ),
        r matches Ok(frames) ==> bmsdata.timestamp is Some && frames.deep_view() == frames_of(
            fields_of(bmsdata, charger_volts_high, charger_volts_low),
        ),
        r matches Err(e) ==> (e is MissingTimestamp <==> bmsdata.timestamp is None),
        r matches Err(e) ==> e is StaleData ==> e->timeout == nanos_of(timeout) && e->elapsed
            >= e->timeout,
{
    let limit: u128 = timeout.as_nanos();
    match bmsdata.timestamp {
        Some(time) => {
            let elapsed = time.elapsed();
            let age: u128 = elapsed.as_nanos();
            let r = frames_at_age(
                &bmsdata,
                charger_volts_high,
                charger_volts_low,
                Some(age),
                limit,
            );
            proof {
                assert(outcome_is(
                    r,
                    encode_spec(
                        bmsdata,
                        charger_volts_high,
                        charger_volts_low,
                        Some(age),
                        nanos_of(timeout),
                    ),
                ));
            }
            r
        },
        None => frames_at_age(&bmsdata, charger_volts_high, charger_volts_low, None, limit),
    }
}

/// The sum of two sizes.
pub fn add(left: usize, right: usize) -> (sum: usize)
    requires
        left + right <= usize::MAX,
    ensures
        sum == left + right,
{
    left + right
}

} // verus!
