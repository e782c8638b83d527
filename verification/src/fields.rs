//! The 16-bit fields of the protocol, resolved from a reading and the
//! charge-voltage overrides.

use crate::snapshot::TelemetrySnapshot;
use vstd::prelude::*;

verus! {

/// Upper charge voltage where the caller gives none: 96 cells at 4.1 V.
pub const DEFAULT_CHARGE_VOLTS_HIGH: u16 = 3936;

/// Lower charge voltage where the caller gives none: 96 cells at 3.0 V.
pub const DEFAULT_CHARGE_VOLTS_LOW: u16 = 2880;

/// State of health that is reported for every pack.
pub const STATE_OF_HEALTH: u16 = 108;

/// Nominal capacity of the pack, before scaling.
pub const NOMINAL_CAPACITY: u16 = 52000;

/// Divisor that scales the nominal capacity against the pack voltage.
pub const CAPACITY_DIVISOR: u16 = 65;

/// Every field that the protocol knows, as a number. The frames carry the
/// first nine but `charge_volts_low`; `charge_volts_low`, `cap`, `temp_high`
/// and `temp_low` are resolved and travel in no frame.
#[derive(Clone, Copy, Debug, PartialEq, Eq, Structural)]
pub struct ProtocolFields {
    pub charge_volts_high: u16,
    pub charge_volts_low: u16,
    pub charge_current: u16,
    pub discharge_current: u16,
    pub soc: u16,
    pub soh: u16,
    pub pack_volts: u16,
    pub current: u16,
    pub temp: u16,
    pub cap: u16,
    pub temp_high: u16,
    pub temp_low: u16,
}

/// An override where the caller gave one, the protocol's default where not.
pub open spec fn or_default(given: Option<u16>, default: u16) -> u16 {
    match given {
        Some(v) => v,
        None => default,
    }
}

/// The fields of a reading under the given overrides.
pub open spec fn fields_of(
    snapshot: TelemetrySnapshot,
    charge_volts_high: Option<u16>,
    charge_volts_low: Option<u16>,
) -> ProtocolFields {
    ProtocolFields {
        charge_volts_high: or_default(charge_volts_high, 3936),
        charge_volts_low: or_default(charge_volts_low, 2880),
        charge_current: snapshot.charge_max,
        discharge_current: snapshot.discharge_max,
        soc: snapshot.capacity,
        soh: 108,
        pack_volts: snapshot.voltage,
        current: snapshot.current,
        temp: snapshot.int_temp,
        cap: 800,
        temp_high: snapshot.cell_temp_max,
        temp_low: snapshot.cell_temp_min,
    }
}

/// Picks the override where there is one, the default where not.
pub fn resolve_override(given: Option<u16>, default: u16) -> (v: u16)
    ensures
        v == or_default(given, default),
{
    match given {
        Some(v) => v,
        None => default,
    }
}

impl ProtocolFields {
    /// Resolves every field of a reading. No override is held against a
    /// range: what the caller gives is what is sent.
    pub fn resolve(
        snapshot: &TelemetrySnapshot,
        charge_volts_high: Option<u16>,
        charge_volts_low: Option<u16>,
    ) -> (fields: ProtocolFields)
        ensures
            fields == fields_of(*snapshot, charge_volts_high, charge_volts_low),
    {
        ProtocolFields {
            charge_volts_high: resolve_override(charge_volts_high, DEFAULT_CHARGE_VOLTS_HIGH),
            charge_volts_low: resolve_override(charge_volts_low, DEFAULT_CHARGE_VOLTS_LOW),
            charge_current: snapshot.charge_max,
            discharge_current: snapshot.discharge_max,
            soc: snapshot.capacity,
            soh: STATE_OF_HEALTH,
            pack_volts: snapshot.voltage,
            current: snapshot.current,
            temp: snapshot.int_temp,
            cap: NOMINAL_CAPACITY / CAPACITY_DIVISOR,
            temp_high: snapshot.cell_temp_max,
            temp_low: snapshot.cell_temp_min,
        }
    }
}

} // verus!
