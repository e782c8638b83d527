//! What holds of every reading: the shape of the frames, the place of each
//! field in them, and when a reading is refused.

use crate::error::{freshness, EncodeError};
use crate::fields::{fields_of, ProtocolFields};
use crate::frames::{encode_spec, frame_ids, frames_of, outcome_is};
use crate::snapshot::TelemetrySnapshot;
use crate::wire::{high_byte, le_bytes_spec, low_byte};
use vstd::prelude::*;

verus! {

/// A fresh reading gives exactly six frames, and their identifiers are
/// 0x359, 0x351, 0x355, 0x356, 0x35C, 0x35E in this order, with payloads of
/// 8, 8, 8, 6, 2 and 2 bytes.
pub proof fn fresh_reading_gives_six_frames(
    snapshot: TelemetrySnapshot,
    charge_volts_high: Option<u16>,
    charge_volts_low: Option<u16>,
    age: u128,
    timeout: u128,
)
    requires
        age < timeout,
    ensures
        encode_spec(snapshot, charge_volts_high, charge_volts_low, Some(age), timeout) is Ok,
        ({
            let frames = encode_spec(
                snapshot,
                charge_volts_high,
                charge_volts_low,
                Some(age),
                timeout,
            )->Ok_0;
            &&& frames.len() == 6
            &&& frames.map_values(|frame: (u16, Seq<u8>)| frame.0) == frame_ids()
            &&& frames.map_values(|frame: (u16, Seq<u8>)| frame.1.len()) == seq![
                8nat,
                8nat,
                8nat,
                6nat,
                2nat,
                2nat,
            ]
        }),
{
    let frames = encode_spec(
        snapshot,
        charge_volts_high,
        charge_volts_low,
        Some(age),
        timeout,
    )->Ok_0;
    assert(frames.map_values(|frame: (u16, Seq<u8>)| frame.0) =~= frame_ids());
    assert(frames.map_values(|frame: (u16, Seq<u8>)| frame.1.len()) =~= seq![
        8nat,
        8nat,
        8nat,
        6nat,
        2nat,
        2nat,
    ]);
}

/// A reading without a timestamp is refused as such, whatever else it holds
/// and whatever the overrides and the timeout are.
pub proof fn missing_timestamp_is_refused(
    snapshot: TelemetrySnapshot,
    charge_volts_high: Option<u16>,
    charge_volts_low: Option<u16>,
    timeout: u128,
)
    ensures
        encode_spec(snapshot, charge_volts_high, charge_volts_low, None, timeout) == Err::<
            Seq<(u16, Seq<u8>)>,
            EncodeError,
        >(EncodeError::MissingTimestamp),
{
}

/// A reading with a timestamp is encoded if and only if its age is strictly
/// below the timeout; at the timeout or beyond it is refused as stale, and
/// the error carries the age and the timeout.
pub proof fn stale_exactly_from_timeout(
    snapshot: TelemetrySnapshot,
    charge_volts_high: Option<u16>,
    charge_volts_low: Option<u16>,
    age: u128,
    timeout: u128,
)
    ensures
        age < timeout <==> encode_spec(
            snapshot,
            charge_volts_high,
            charge_volts_low,
            Some(age),
            timeout,
        ) is Ok,
        age >= timeout <==> encode_spec(
            snapshot,
            charge_volts_high,
            charge_volts_low,
            Some(age),
            timeout,
        ) == Err::<Seq<(u16, Seq<u8>)>, EncodeError>(
            (EncodeError::StaleData { elapsed: age, timeout }),
        ),
{
}

/// Every field that a frame carries stands there low byte first: the byte
/// `v & 0xFF`, then the byte `v >> 8`. The reserved bytes are zero.
pub proof fn fields_travel_low_byte_first(f: ProtocolFields)
    ensures
        frames_of(f)[1].1 == seq![
            low_byte(f.charge_volts_high),
            high_byte(f.charge_volts_high),
            low_byte(f.charge_current),
            high_byte(f.charge_current),
            low_byte(f.discharge_current),
            high_byte(f.discharge_current),
            0x00u8,
            0x00u8,
        ],
        frames_of(f)[2].1 == seq![
            low_byte(f.soc),
            high_byte(f.soc),
            low_byte(f.soh),
            high_byte(f.soh),
            0x00u8,
            0x00u8,
            0x00u8,
            0x00u8,
        ],
        frames_of(f)[3].1 == seq![
            low_byte(f.pack_volts),
            high_byte(f.pack_volts),
            low_byte(f.current),
            high_byte(f.current),
            low_byte(f.temp),
            high_byte(f.temp),
        ],
{
    assert(frames_of(f)[1].1 =~= seq![
        low_byte(f.charge_volts_high),
        high_byte(f.charge_volts_high),
        low_byte(f.charge_current),
        high_byte(f.charge_current),
        low_byte(f.discharge_current),
        high_byte(f.discharge_current),
        0x00u8,
        0x00u8,
    ]);
    assert(frames_of(f)[2].1 =~= seq![
        low_byte(f.soc),
        high_byte(f.soc),
        low_byte(f.soh),
        high_byte(f.soh),
        0x00u8,
        0x00u8,
        0x00u8,
        0x00u8,
    ]);
    assert(frames_of(f)[3].1 =~= seq![
        low_byte(f.pack_volts),
        high_byte(f.pack_volts),
        low_byte(f.current),
        high_byte(f.current),
        low_byte(f.temp),
        high_byte(f.temp),
    ]);
}

/// Without overrides the charge voltages are 3936 and 2880. The frame 0x351
/// then begins with the bytes 0x60 0x0F, which are 3936 low byte first; the
/// lower voltage, whose bytes would be 0x40 0x0B, is resolved and sent in no
/// frame.
pub proof fn defaults_stand_in_for_absent_overrides(snapshot: TelemetrySnapshot)
    ensures
        fields_of(snapshot, None, None).charge_volts_high == 3936,
        fields_of(snapshot, None, None).charge_volts_low == 2880,
        le_bytes_spec(3936u16) == seq![0x60u8, 0x0Fu8],
        le_bytes_spec(2880u16) == seq![0x40u8, 0x0Bu8],
        frames_of(fields_of(snapshot, None, None))[1].0 == 0x351,
        frames_of(fields_of(snapshot, None, None))[1].1.subrange(0, 2) == seq![0x60u8, 0x0Fu8],
{
    assert((3936u16 & 0xFF) as u8 == 0x60u8) by (bit_vector);
    assert((3936u16 >> 8) as u8 == 0x0Fu8) by (bit_vector);
    assert((2880u16 & 0xFF) as u8 == 0x40u8) by (bit_vector);
    assert((2880u16 >> 8) as u8 == 0x0Bu8) by (bit_vector);
    assert(le_bytes_spec(3936u16) =~= seq![0x60u8, 0x0Fu8]);
    assert(le_bytes_spec(2880u16) =~= seq![0x40u8, 0x0Bu8]);
    assert(frames_of(fields_of(snapshot, None, None))[1].1.subrange(0, 2) =~= seq![
        0x60u8,
        0x0Fu8,
    ]);
}

/// An upper charge voltage that the caller gives is the one that is sent:
/// its two bytes, low byte first, open the frame 0x351 in place of the
/// default's, whatever the value is.
pub proof fn override_takes_the_place_of_the_default(
    snapshot: TelemetrySnapshot,
    high: u16,
    charge_volts_low: Option<u16>,
)
    ensures
        fields_of(snapshot, Some(high), charge_volts_low).charge_volts_high == high,
        frames_of(fields_of(snapshot, Some(high), charge_volts_low))[1].0 == 0x351,
        frames_of(fields_of(snapshot, Some(high), charge_volts_low))[1].1.subrange(0, 2)
            == le_bytes_spec(high),
{
    assert(frames_of(fields_of(snapshot, Some(high), charge_volts_low))[1].1.subrange(0, 2)
        =~= le_bytes_spec(high));
}

/// The lower charge voltage is resolved like the upper one, and no frame
/// depends on it: any two values of it give the same frames.
pub proof fn lower_charge_voltage_is_not_sent(
    snapshot: TelemetrySnapshot,
    charge_volts_high: Option<u16>,
    low_a: Option<u16>,
    low_b: Option<u16>,
)
    ensures
        low_a matches Some(v) ==> fields_of(snapshot, charge_volts_high, low_a).charge_volts_low
            == v,
        frames_of(fields_of(snapshot, charge_volts_high, low_a)) == frames_of(
            fields_of(snapshot, charge_volts_high, low_b),
        ),
{
}

/// Two outcomes for the same reading, overrides, age and timeout are the
/// same: the same error, or the same frames byte for byte.
pub proof fn same_inputs_give_same_frames(
    first: Result<Vec<(u16, Vec<u8>)>, EncodeError>,
    second: Result<Vec<(u16, Vec<u8>)>, EncodeError>,
    snapshot: TelemetrySnapshot,
    charge_volts_high: Option<u16>,
    charge_volts_low: Option<u16>,
    age: Option<u128>,
    timeout: u128,
)
    requires
        outcome_is(
            first,
            encode_spec(snapshot, charge_volts_high, charge_volts_low, age, timeout),
        ),
        outcome_is(
            second,
            encode_spec(snapshot, charge_volts_high, charge_volts_low, age, timeout),
        ),
    ensures
        first is Ok <==> second is Ok,
        first is Ok ==> first->Ok_0.deep_view() == second->Ok_0.deep_view(),
        first is Err ==> first->Err_0 == second->Err_0,
{
}

/// The frames depend on six numbers of the reading alone: state of charge,
/// the two current limits, pack voltage, pack current and internal
/// temperature. Neither the timestamp, nor the cell temperatures, nor, while
/// the reading is fresh, its age changes a byte.
pub proof fn frames_depend_on_six_readings(
    a: TelemetrySnapshot,
    b: TelemetrySnapshot,
    charge_volts_high: Option<u16>,
    charge_volts_low: Option<u16>,
    age_a: u128,
    age_b: u128,
    timeout: u128,
)
    requires
        a.capacity == b.capacity,
        a.charge_max == b.charge_max,
        a.discharge_max == b.discharge_max,
        a.voltage == b.voltage,
        a.current == b.current,
        a.int_temp == b.int_temp,
        age_a < timeout,
        age_b < timeout,
    ensures
        encode_spec(a, charge_volts_high, charge_volts_low, Some(age_a), timeout) == encode_spec(
            b,
            charge_volts_high,
            charge_volts_low,
            Some(age_b),
            timeout,
        ),
{
}

} // verus!
