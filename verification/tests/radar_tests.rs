use hexar::frames::{RadarDriver, RadarLLFrame};
use hexar::ld2412::{Ld2412Command, Ld2412TargetData, RadarResolution, TargetState};
use hexar::ld2450::{Ld2450Command, Ld2450TargetData, TrackingMode};

#[test]
fn test_deserialize_target_data() {
    // Example data from the module documentation:
    // AA FF 03 00 0E 03 B1 86 10 00 40 01 00 ... 55 CC
    // Extracting just the target data (without header/footer):
    let target_data = [
        // Target 1
        0x0E, 0x03, 0xB1, 0x86, 0x10, 0x00, 0x40, 0x01, // Target 2 (not present)
        0x00, 0x00, 0x00, 0x00, 0x00, 0x00, 0x00, 0x00, // Target 3 (not present)
        0x00, 0x00, 0x00, 0x00, 0x00, 0x00, 0x00, 0x00,
    ];

    let result = Ld2450TargetData::deserialize(&target_data);
    assert!(result.is_some());

    let target_data = result.unwrap();
    assert_eq!(target_data.targets.len(), 1, "Should parse exactly one target");

    let target = target_data.targets.index(0);

    // Target 1 X coordinate: 0x0E + 0x03 * 256 = 782, then 0 - 782 = -782 mm
    // (since the high bit is 0).
    assert_eq!(target.position.x, -782, "X coordinate should be -782 mm");

    // Target 1 Y coordinate: 0xB1 + 0x86 * 256 = 34481; the high bit is 1,
    // so it is positive: 34481 - 2^15 = 1713 mm.
    assert_eq!(target.position.y, 1713, "Y coordinate should be 1713 mm");

    // Target 1 speed: 0x10 + 0x00 * 256 = 16; the high bit is 0, so it is
    // negative: 0 - 16 = -16 cm/s.
    assert_eq!(target.speed, -16, "Speed should be -16 cm/s");

    // Target 1 distance resolution: 0x40 + 0x01 * 256 = 320 mm.
    assert_eq!(target.distance_resolution, 320, "Distance resolution should be 320 mm");
}

#[test]
fn ld2450_short_buffer_is_rejected() {
    let short = [0u8; 23];
    assert!(Ld2450TargetData::deserialize(&short).is_none());
}

#[test]
fn command_frame_serializes_to_documented_bytes() {
    let frame = Ld2450Command::EnableConfiguration.to_llframe();
    let bytes = frame.serialize();
    assert_eq!(
        bytes.as_slice(),
        &[0xFD, 0xFC, 0xFB, 0xFA, 0x04, 0x00, 0xFF, 0x00, 0x01, 0x00, 0x04, 0x03, 0x02, 0x01],
    );
}

#[test]
fn command_frame_round_trips_through_deserialize() {
    let frame = Ld2412Command::Resolution(RadarResolution::Cm25).to_llframe();
    let bytes = frame.serialize();
    let parsed = RadarLLFrame::deserialize(bytes.as_slice()).unwrap();
    match parsed {
        RadarLLFrame::CommandAckFrame(opcode, data) => {
            assert_eq!(opcode, 0x0001);
            assert_eq!(data.as_slice(), &[0x02, 0x00, 0x00, 0x00, 0x00, 0x00]);
        }
        _ => panic!("expected a command frame"),
    }
}

#[test]
fn baud_rate_payload_uses_the_wire_code() {
    let frame = Ld2450Command::BaudRate(256000).to_llframe();
    match frame {
        RadarLLFrame::CommandAckFrame(opcode, data) => {
            assert_eq!(opcode, 0x00A1);
            assert_eq!(data.as_slice(), &[0x07, 0x00]);
        }
        _ => panic!("expected a command frame"),
    }
}

#[test]
fn zone_filtering_payload_is_byte_exact() {
    let regions = [(1i16, -2i16, 3i16, -4i16), (0, 0, 0, 0), (256, 1, 2, 3)];
    let mut cmd_bytes = hexar::buffers::ByteBuf16::new();
    let cmd = Ld2450Command::SetZoneFiltering(0x0102, regions);
    cmd.serialize_data(&mut cmd_bytes);
    let expected: Vec<u8> = vec![
        0x02, 0x01, // filter type, little endian
        1, 0, 0xFE, 0xFF, 3, 0, 0xFC, 0xFF, // region 1
        0, 0, 0, 0, 0, 0, 0, 0, // region 2
        0, 1, 1, 0, 2, 0, 3, 0, // region 3
    ];
    assert_eq!(cmd_bytes.as_slice(), expected.as_slice());
}

#[test]
fn target2d_frame_is_recognized_and_parses() {
    // The documented whole frame around the 2D target data.
    let mut frame_bytes: Vec<u8> = vec![0xAA, 0xFF, 0x03, 0x00];
    frame_bytes.extend_from_slice(&[
        0x0E, 0x03, 0xB1, 0x86, 0x10, 0x00, 0x40, 0x01, 0x00, 0x00, 0x00, 0x00, 0x00, 0x00, 0x00,
        0x00, 0x00, 0x00, 0x00, 0x00, 0x00, 0x00, 0x00, 0x00,
    ]);
    frame_bytes.extend_from_slice(&[0x55, 0xCC]);
    let parsed = RadarLLFrame::deserialize(&frame_bytes).unwrap();
    assert!(matches!(parsed, RadarLLFrame::TargetFrame2D(_)));
    let body = parsed.intraframe().unwrap();
    let targets = Ld2450TargetData::deserialize(body).unwrap();
    assert_eq!(targets.targets.len(), 1);
    assert_eq!(targets.targets.index(0).position.y, 1713);
}

#[test]
fn target_frame_with_wrong_length_field_is_rejected() {
    // 1D target frame whose length field disagrees with the body length.
    let bytes = [0xF4, 0xF3, 0xF2, 0xF1, 0x05, 0x00, 0x01, 0x02, 0x03, 0xF8, 0xF7, 0xF6, 0xF5];
    assert!(RadarLLFrame::deserialize(&bytes).is_none());
}

#[test]
fn garbage_is_no_frame() {
    let bytes = [0x00, 0x01, 0x02, 0x03, 0x04, 0x05, 0x06, 0x07, 0x08, 0x09, 0x0A, 0x0B];
    assert!(RadarLLFrame::deserialize(&bytes).is_none());
}

#[test]
fn ld2412_basic_frame_parses() {
    // Data type 2 (basic): state 1, moving target at 0x0102 cm with
    // energy 40, stationary target at 0x0304 cm with energy 50.
    let bytes = [0x02, 0xAA, 0x01, 0x02, 0x01, 40, 0x04, 0x03, 50, 0x55, 0x00];
    let parsed = Ld2412TargetData::deserialize(&bytes).unwrap();
    assert!(parsed.engineering_mode_data.is_none());
    let basic = parsed.basic_target_data;
    assert_eq!(basic.state, TargetState::Campaign);
    assert_eq!(basic.moving_target.distance, 0x0102);
    assert_eq!(basic.moving_target.energy, 40);
    assert_eq!(basic.stationary_target.distance, 0x0304);
    assert_eq!(basic.stationary_target.energy, 50);
}

#[test]
fn ld2412_engineering_frame_parses() {
    // Data type 1 (engineering): 38-byte body.
    let mut body: Vec<u8> = vec![0x02, 0x10, 0x00, 60, 0x20, 0x00, 70, 9, 8];
    for i in 0..14u8 {
        body.push(100 + i); // moving gates
    }
    for i in 0..14u8 {
        body.push(200 + i as u8); // stationary gates
    }
    body.push(77); // light
    let mut bytes: Vec<u8> = vec![0x01, 0xAA];
    bytes.extend_from_slice(&body);
    bytes.extend_from_slice(&[0x55, 0x00]);
    let parsed = Ld2412TargetData::deserialize(&bytes).unwrap();
    let eng = parsed.engineering_mode_data.unwrap();
    assert_eq!(eng.b1, 9);
    assert_eq!(eng.b2, 8);
    assert_eq!(eng.moving_gates[0], 100);
    assert_eq!(eng.moving_gates[13], 113);
    assert_eq!(eng.stationary_gates[0], 200);
    assert_eq!(eng.stationary_gates[13], 213);
    assert_eq!(eng.light, 77);
    assert_eq!(parsed.basic_target_data.state, TargetState::Stationary);
}

#[test]
fn ld2412_unknown_data_type_is_rejected() {
    let bytes = [0x03, 0xAA, 0x00, 0x55, 0x00];
    assert!(Ld2412TargetData::deserialize(&bytes).is_none());
}

#[test]
fn tracking_mode_values_exist() {
    // The two tracking modes are distinct values.
    let single = TrackingMode::SingleTarget;
    let multi = TrackingMode::MultiTarget;
    assert!(!matches!(single, TrackingMode::MultiTarget));
    assert!(matches!(multi, TrackingMode::MultiTarget));
}

#[test]
fn opcodes_match_the_protocol() {
    assert_eq!(Ld2450Command::FactoryReset.get_opcode(), 0x00A2);
    assert_eq!(Ld2450Command::QueryZoneFiltering.get_opcode(), 0x00C1);
    assert_eq!(Ld2412Command::EngineeringModeOn.get_opcode(), 0x0062);
    assert_eq!(Ld2412Command::MacAddress.get_opcode(), 0x00A6);
}
