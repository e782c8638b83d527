//! One reading of the battery management system.

use std::time::Instant;
use vstd::prelude::*;

verus! {

/// What the battery management system reported at one point in time.
///
/// Every number is in the unit of the battery's own protocol and is passed
/// on as it stands.
#[derive(Clone, Copy, Debug)]
pub struct TelemetrySnapshot {
    /// When the reading was taken; `None` while none has ever been taken.
    pub timestamp: Option<Instant>,
    /// State of charge.
    pub capacity: u16,
    /// Largest charge current the pack accepts.
    pub charge_max: u16,
    /// Largest discharge current the pack delivers.
    pub discharge_max: u16,
    /// Pack voltage.
    pub voltage: u16,
    /// Pack current.
    pub current: u16,
    /// Internal temperature.
    pub int_temp: u16,
    /// Temperature of the warmest cell.
    pub cell_temp_max: u16,
    /// Temperature of the coldest cell.
    pub cell_temp_min: u16,
}

} // verus!
