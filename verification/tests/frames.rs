use pylon_frames::error::EncodeError;
use pylon_frames::fields::ProtocolFields;
use pylon_frames::frames::{
    assemble_frames, frames_at_age, ID_CHARGE_LIMITS, ID_IDENTITY, ID_MANUFACTURER,
    ID_PACK_STATUS, ID_SOC_SOH, ID_STATUS_FLAGS,
};
use pylon_frames::snapshot::TelemetrySnapshot;

const SECOND: u128 = 1_000_000_000;

fn sample() -> TelemetrySnapshot {
    TelemetrySnapshot {
        timestamp: None,
        capacity: 80,
        charge_max: 0x0102,
        discharge_max: 0x0304,
        voltage: 5000,
        current: 100,
        int_temp: 250,
        cell_temp_max: 0x0A0B,
        cell_temp_min: 0x0C0D,
    }
}

#[test]
fn frame_identifiers_have_their_values() {
    assert_eq!(ID_IDENTITY, 0x359);
    assert_eq!(ID_CHARGE_LIMITS, 0x351);
    assert_eq!(ID_SOC_SOH, 0x355);
    assert_eq!(ID_PACK_STATUS, 0x356);
    assert_eq!(ID_STATUS_FLAGS, 0x35C);
    assert_eq!(ID_MANUFACTURER, 0x35E);
}

#[test]
fn fresh_reading_gives_the_six_frames_byte_for_byte() {
    let frames = frames_at_age(&sample(), None, None, Some(SECOND), 5 * SECOND).unwrap();
    let expected: Vec<(u16, Vec<u8>)> = vec![
        (0x359, vec![0x00, 0x00, 0x00, 0x00, 0x22, 0x50, 0x4E, 0x00]),
        (0x351, vec![0x60, 0x0F, 0x02, 0x01, 0x04, 0x03, 0x00, 0x00]),
        (0x355, vec![0x50, 0x00, 0x6C, 0x00, 0x00, 0x00, 0x00, 0x00]),
        (0x356, vec![0x88, 0x13, 0x64, 0x00, 0xFA, 0x00]),
        (0x35C, vec![0xC0, 0x00]),
        (0x35E, vec![0x54, 0x50]),
    ];
    assert_eq!(frames, expected);
}

#[test]
fn frames_come_in_the_fixed_order() {
    let frames = frames_at_age(&sample(), Some(1), Some(2), Some(0), 1).unwrap();
    let ids: Vec<u16> = frames.iter().map(|frame| frame.0).collect();
    assert_eq!(ids, vec![0x359, 0x351, 0x355, 0x356, 0x35C, 0x35E]);
    let lengths: Vec<usize> = frames.iter().map(|frame| frame.1.len()).collect();
    assert_eq!(lengths, vec![8, 8, 8, 6, 2, 2]);
}

#[test]
fn manufacturer_frame_spells_tp() {
    let frames = frames_at_age(&sample(), None, None, Some(0), SECOND).unwrap();
    assert_eq!(frames[5].1, vec![b'T', b'P']);
}

#[test]
fn defaults_open_the_charge_limits_frame() {
    let frames = frames_at_age(&sample(), None, None, Some(0), SECOND).unwrap();
    assert_eq!(frames[1].0, 0x351);
    assert_eq!(frames[1].1[0..2], 3936u16.to_le_bytes());
    assert_eq!(frames[1].1[0..2], [0x60, 0x0F]);
}

#[test]
fn lower_default_appears_in_no_frame() {
    let frames = frames_at_age(&sample(), None, None, Some(0), SECOND).unwrap();
    for (_, payload) in frames.iter() {
        assert!(!payload.windows(2).any(|pair| pair == [0x40, 0x0B]));
    }
}

#[test]
fn override_replaces_the_default_in_the_charge_limits_frame() {
    let frames = frames_at_age(&sample(), Some(4000), None, Some(0), SECOND).unwrap();
    assert_eq!(frames[1].1[0..2], [0xA0, 0x0F]);
    assert_eq!(frames[1].1, vec![0xA0, 0x0F, 0x02, 0x01, 0x04, 0x03, 0x00, 0x00]);
    let frames = frames_at_age(&sample(), Some(0xBEEF), None, Some(0), SECOND).unwrap();
    assert_eq!(frames[1].1[0..2], [0xEF, 0xBE]);
}

#[test]
fn override_is_not_held_against_a_range() {
    let frames = frames_at_age(&sample(), Some(0), None, Some(0), SECOND).unwrap();
    assert_eq!(frames[1].1[0..2], [0x00, 0x00]);
    let frames = frames_at_age(&sample(), Some(u16::MAX), None, Some(0), SECOND).unwrap();
    assert_eq!(frames[1].1[0..2], [0xFF, 0xFF]);
}

#[test]
fn lower_override_changes_no_frame() {
    let without = frames_at_age(&sample(), Some(4000), None, Some(0), SECOND).unwrap();
    let with = frames_at_age(&sample(), Some(4000), Some(1234), Some(0), SECOND).unwrap();
    assert_eq!(without, with);
}

#[test]
fn cell_temperatures_change_no_frame() {
    let mut other = sample();
    other.cell_temp_max = 1;
    other.cell_temp_min = 2;
    let a = frames_at_age(&sample(), None, None, Some(0), SECOND).unwrap();
    let b = frames_at_age(&other, None, None, Some(0), SECOND).unwrap();
    assert_eq!(a, b);
}

#[test]
fn every_carried_field_is_little_endian() {
    let reading = TelemetrySnapshot {
        timestamp: None,
        capacity: 0x1122,
        charge_max: 0x3344,
        discharge_max: 0x5566,
        voltage: 0x7788,
        current: 0x99AA,
        int_temp: 0xBBCC,
        cell_temp_max: 0,
        cell_temp_min: 0,
    };
    let frames = frames_at_age(&reading, Some(0xDDEE), None, Some(0), SECOND).unwrap();
    assert_eq!(frames[1].1, vec![0xEE, 0xDD, 0x44, 0x33, 0x66, 0x55, 0x00, 0x00]);
    assert_eq!(frames[2].1, vec![0x22, 0x11, 0x6C, 0x00, 0x00, 0x00, 0x00, 0x00]);
    assert_eq!(frames[3].1, vec![0x88, 0x77, 0xAA, 0x99, 0xCC, 0xBB]);
}

#[test]
fn same_inputs_give_the_same_frames() {
    let first = frames_at_age(&sample(), Some(4000), Some(2900), Some(SECOND), 5 * SECOND);
    let second = frames_at_age(&sample(), Some(4000), Some(2900), Some(SECOND), 5 * SECOND);
    assert_eq!(first, second);
    assert!(first.is_ok());
}

#[test]
fn assemble_frames_places_each_field() {
    let fields = ProtocolFields {
        charge_volts_high: 0x0001,
        charge_volts_low: 0x0203,
        charge_current: 0x0405,
        discharge_current: 0x0607,
        soc: 0x0809,
        soh: 0x0A0B,
        pack_volts: 0x0C0D,
        current: 0x0E0F,
        temp: 0x1011,
        cap: 0x1213,
        temp_high: 0x1415,
        temp_low: 0x1617,
    };
    let expected: Vec<(u16, Vec<u8>)> = vec![
        (0x359, vec![0x00, 0x00, 0x00, 0x00, 0x22, 0x50, 0x4E, 0x00]),
        (0x351, vec![0x01, 0x00, 0x05, 0x04, 0x07, 0x06, 0x00, 0x00]),
        (0x355, vec![0x09, 0x08, 0x0B, 0x0A, 0x00, 0x00, 0x00, 0x00]),
        (0x356, vec![0x0D, 0x0C, 0x0F, 0x0E, 0x11, 0x10]),
        (0x35C, vec![0xC0, 0x00]),
        (0x35E, vec![0x54, 0x50]),
    ];
    assert_eq!(assemble_frames(&fields), expected);
}

#[test]
fn reading_without_age_is_refused() {
    let r = frames_at_age(&sample(), None, None, None, 5 * SECOND);
    assert_eq!(r, Err(EncodeError::MissingTimestamp));
    let r = frames_at_age(&sample(), Some(1), Some(2), None, 0);
    assert_eq!(r, Err(EncodeError::MissingTimestamp));
    let r = frames_at_age(&sample(), None, None, None, u128::MAX);
    assert_eq!(r, Err(EncodeError::MissingTimestamp));
}

#[test]
fn reading_at_the_timeout_is_stale() {
    let r = frames_at_age(&sample(), None, None, Some(5 * SECOND), 5 * SECOND);
    assert_eq!(
        r,
        Err(EncodeError::StaleData { elapsed: 5 * SECOND, timeout: 5 * SECOND })
    );
}

#[test]
fn reading_just_under_the_timeout_is_fresh() {
    let r = frames_at_age(&sample(), None, None, Some(5 * SECOND - 1), 5 * SECOND);
    assert!(r.is_ok());
    assert_eq!(r.unwrap().len(), 6);
}

#[test]
fn reading_beyond_the_timeout_is_stale() {
    let r = frames_at_age(&sample(), None, None, Some(7 * SECOND), 5 * SECOND);
    assert_eq!(
        r,
        Err(EncodeError::StaleData { elapsed: 7 * SECOND, timeout: 5 * SECOND })
    );
}

#[test]
fn timeout_of_zero_refuses_every_reading() {
    let r = frames_at_age(&sample(), None, None, Some(0), 0);
    assert_eq!(r, Err(EncodeError::StaleData { elapsed: 0, timeout: 0 }));
}
