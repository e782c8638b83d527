//! The six frames of the protocol and their payloads.

use crate::error::{check_freshness, freshness, EncodeError};
use crate::fields::{fields_of, ProtocolFields};
use crate::snapshot::TelemetrySnapshot;
use crate::wire::{le_bytes, le_bytes_spec};
use vstd::prelude::*;

verus! {

/// Identifier of the frame that names the protocol.
pub const ID_IDENTITY: u16 = 0x359;

/// Identifier of the frame with the charge voltage and the current limits.
pub const ID_CHARGE_LIMITS: u16 = 0x351;

/// Identifier of the frame with state of charge and state of health.
pub const ID_SOC_SOH: u16 = 0x355;

/// Identifier of the frame with pack voltage, current and temperature.
pub const ID_PACK_STATUS: u16 = 0x356;

/// Identifier of the frame with the status flags.
pub const ID_STATUS_FLAGS: u16 = 0x35C;

/// Identifier of the frame with the manufacturer's name.
pub const ID_MANUFACTURER: u16 = 0x35E;

/// The identifiers in the order in which the frames are sent.
pub open spec fn frame_ids() -> Seq<u16> {
    seq![0x359u16, 0x351u16, 0x355u16, 0x356u16, 0x35Cu16, 0x35Eu16]
}

/// Payload of the identity frame: the same eight bytes for every reading.
pub open spec fn identity_payload() -> Seq<u8> {
    seq![0x00u8, 0x00u8, 0x00u8, 0x00u8, 0x22u8, 0x50u8, 0x4Eu8, 0x00u8]
}

/// Payload of the charge-limits frame: charge voltage, charge current,
/// discharge current, two reserved bytes.
pub open spec fn charge_limits_payload(f: ProtocolFields) -> Seq<u8> {
    le_bytes_spec(f.charge_volts_high) + le_bytes_spec(f.charge_current) + le_bytes_spec(
        f.discharge_current,
    ) + seq![0x00u8, 0x00u8]
}

/// Payload of the frame with state of charge and state of health, then four
/// reserved bytes.
pub open spec fn soc_soh_payload(f: ProtocolFields) -> Seq<u8> {
    le_bytes_spec(f.soc) + le_bytes_spec(f.soh) + seq![0x00u8, 0x00u8, 0x00u8, 0x00u8]
}

/// Payload of the pack-status frame: voltage, current, temperature, and no
/// padding.
pub open spec fn pack_status_payload(f: ProtocolFields) -> Seq<u8> {
    le_bytes_spec(f.pack_volts) + le_bytes_spec(f.current) + le_bytes_spec(f.temp)
}

/// Payload of the status-flags frame.
pub open spec fn status_flags_payload() -> Seq<u8> {
    seq![0xC0u8, 0x00u8]
}

/// Payload of the manufacturer frame: the letters `T` and `P`.
pub open spec fn manufacturer_payload() -> Seq<u8> {
    seq![0x54u8, 0x50u8]
}

/// The six frames for the given fields, in the order in which they are sent.
pub open spec fn frames_of(f: ProtocolFields) -> Seq<(u16, Seq<u8>)> {
    seq![
        (0x359u16, identity_payload()),
        (0x351u16, charge_limits_payload(f)),
        (0x355u16, soc_soh_payload(f)),
        (0x356u16, pack_status_payload(f)),
        (0x35Cu16, status_flags_payload()),
        (0x35Eu16, manufacturer_payload()),
    ]
}

/// What encoding a reading of the given age yields: the six frames where the
/// reading is fresh, the reason where it is not. `age` is `None` where the
/// reading has no timestamp.
pub open spec fn encode_spec(
    snapshot: TelemetrySnapshot,
    charge_volts_high: Option<u16>,
    charge_volts_low: Option<u16>,
    age: Option<u128>,
    timeout: u128,
) -> Result<Seq<(u16, Seq<u8>)>, EncodeError> {
    match freshness(age, timeout) {
        Ok(_) => Ok(frames_of(fields_of(snapshot, charge_volts_high, charge_volts_low))),
        Err(e) => Err(e),
    }
}

/// Whether an outcome in memory is the outcome `expected`: the same error, or
/// frames with the same identifiers and bytes in the same order.
pub open spec fn outcome_is(
    got: Result<Vec<(u16, Vec<u8>)>, EncodeError>,
    expected: Result<Seq<(u16, Seq<u8>)>, EncodeError>,
) -> bool {
    match expected {
        Ok(frames) => got is Ok && got->Ok_0.deep_view() == frames,
        Err(e) => got is Err && got->Err_0 == e,
    }
}

/// A byte vector seen through `deep_view` is the vector's bytes.
pub proof fn bytes_deep_view(v: Vec<u8>)
    ensures
        v.deep_view() == v@,
{
    assert(v.deep_view() =~= v@);
}

/// Builds the six frames from resolved fields.
pub fn assemble_frames(f: &ProtocolFields) -> (frames: Vec<(u16, Vec<u8>)>)
    ensures
        frames.deep_view() == frames_of(*f),
{
    let charge_volts_high = le_bytes(f.charge_volts_high);
    let charge_current = le_bytes(f.charge_current);
    let discharge_current = le_bytes(f.discharge_current);
    let soc = le_bytes(f.soc);
    let soh = le_bytes(f.soh);
    let pack_volts = le_bytes(f.pack_volts);
    let current = le_bytes(f.current);
    let temp = le_bytes(f.temp);

    let identity: Vec<u8> = vec![0x00, 0x00, 0x00, 0x00, 0x22, 0x50, 0x4E, 0x00];
    let charge_limits: Vec<u8> = vec![
        charge_volts_high[0],
        charge_volts_high[1],
        charge_current[0],
        charge_current[1],
        discharge_current[0],
        discharge_current[1],
        0x00,
        0x00,
    ];
    let soc_soh: Vec<u8> = vec![soc[0], soc[1], soh[0], soh[1], 0x00, 0x00, 0x00, 0x00];
    let pack_status: Vec<u8> = vec![
        pack_volts[0],
        pack_volts[1],
        current[0],
        current[1],
        temp[0],
        temp[1],
    ];
    let status_flags: Vec<u8> = vec![0xC0, 0x00];
    let manufacturer: Vec<u8> = vec![0x54, 0x50];
    proof {
        bytes_deep_view(identity);
        bytes_deep_view(charge_limits);
        bytes_deep_view(soc_soh);
        bytes_deep_view(pack_status);
        bytes_deep_view(status_flags);
        bytes_deep_view(manufacturer);
        assert(identity@ =~= identity_payload());
        assert(charge_limits@ =~= charge_limits_payload(*f));
        assert(soc_soh@ =~= soc_soh_payload(*f));
        assert(pack_status@ =~= pack_status_payload(*f));
        assert(status_flags@ =~= status_flags_payload());
        assert(manufacturer@ =~= manufacturer_payload());
    }
    let frames: Vec<(u16, Vec<u8>)> = vec![
        (ID_IDENTITY, identity),
        (ID_CHARGE_LIMITS, charge_limits),
        (ID_SOC_SOH, soc_soh),
        (ID_PACK_STATUS, pack_status),
        (ID_STATUS_FLAGS, status_flags),
        (ID_MANUFACTURER, manufacturer),
    ];
    assert(frames.deep_view() =~= frames_of(*f));
    frames
}

/// Encodes a reading whose age the caller has measured.
///
/// `age` is the time since the reading was taken, in nanoseconds, and `None`
/// where the reading has no timestamp; `timeout` is in nanoseconds too. The
/// reading's own `timestamp` is not looked at. The frames come out only for
/// a reading strictly younger than `timeout`; no override is held against a
/// range.
pub fn frames_at_age(
    snapshot: &TelemetrySnapshot,
    charge_volts_high: Option<u16>,
    charge_volts_low: Option<u16>,
    age: Option<u128>,
    timeout: u128,
) -> (r: Result<Vec<(u16, Vec<u8>)>, EncodeError>)
    ensures
        outcome_is(r, encode_spec(*snapshot, charge_volts_high, charge_volts_low, age, timeout)),
{
    match check_freshness(age, timeout) {
        Ok(_) => {
            let fields = ProtocolFields::resolve(snapshot, charge_volts_high, charge_volts_low);
            Ok(assemble_frames(&fields))
        },
        Err(e) => Err(e),
    }
}

} // verus!
