use servobus::bus::{
    decode_angle_limits, move_multiple_request, i16_from_le, i16_le_bytes, move_request, ping_request, read_request,
    scan_decision, speed_word, sync_write_payload, sync_write_request, u16_from_le, u16_le_bytes,
    write_request, write_servo_memory_request, ServoMultipleWriteCommand,
};
use servobus::registers::{ServoDirection, ServoRegister};
use servobus::codec::{build_frame, checksum, parse_frame, BusError, SERVO_CMD_WRITE};

#[test]
fn ping_frame_bytes() {
    let frame = ping_request(1);
    assert_eq!(frame, vec![0xFF, 0xFF, 0x01, 0x02, 0x01, 0xFB]);
}

#[test]
fn read_frame_bytes() {
    // Read one byte of the id register (0x05) of servo 3:
    // sum = 3 + 4 + 2 + 5 + 1 = 15, checksum = !15 = 0xF0.
    let frame = read_request(3, 0x05, 1);
    assert_eq!(frame, vec![0xFF, 0xFF, 0x03, 0x04, 0x02, 0x05, 0x01, 0xF0]);
}

#[test]
fn move_frame_bytes() {
    // Move servo 1 to tick 2048 over 1000 ms at max speed: the write covers
    // target location, running time and running speed, little endian.
    let frame = move_request(1, 2048, 1000, 0);
    assert_eq!(
        frame,
        vec![0xFF, 0xFF, 0x01, 0x09, 0x03, 0x2A, 0x00, 0x08, 0xE8, 0x03, 0x00, 0x00, 0xD5]
    );
}

#[test]
fn checksum_matches_hand_computation() {
    let frame = vec![0xFF, 0xFF, 0x01, 0x02, 0x01, 0x00];
    assert_eq!(checksum(&frame), !((0x01u16 + 0x02 + 0x01) & 0xFF) as u8);
}

#[test]
fn parse_build_round_trip() {
    let params = vec![0x2A, 0x00, 0x08];
    let frame = build_frame(7, SERVO_CMD_WRITE, &params);
    let parsed = parse_frame(&frame).unwrap();
    assert_eq!(parsed.id, 7);
    assert_eq!(parsed.code, SERVO_CMD_WRITE);
    assert_eq!(parsed.params, params);
}

#[test]
fn single_flipped_byte_fails_validation() {
    let params = vec![0x11, 0x22, 0x33];
    let frame = build_frame(9, SERVO_CMD_WRITE, &params);
    for i in 0..frame.len() {
        let mut corrupted = frame.clone();
        corrupted[i] = corrupted[i].wrapping_add(1);
        assert!(parse_frame(&corrupted).is_err(), "flip at byte {} passed", i);
    }
}

#[test]
fn parse_rejects_each_error_kind() {
    assert_eq!(parse_frame(&vec![0xFF, 0xFF, 1, 2, 1]), Err(BusError::FrameTooShort));
    assert_eq!(parse_frame(&vec![0xFE, 0xFF, 1, 2, 1, 0xFB]), Err(BusError::BadHeader));
    assert_eq!(parse_frame(&vec![0xFF, 0xFF, 1, 3, 1, 0xFB]), Err(BusError::LengthMismatch));
    assert_eq!(parse_frame(&vec![0xFF, 0xFF, 1, 2, 1, 0xFA]), Err(BusError::ChecksumMismatch));
}

#[test]
fn le_bytes_round_trip() {
    assert_eq!(u16_le_bytes(0x1234), (0x34, 0x12));
    assert_eq!(u16_from_le(0x34, 0x12), 0x1234);
    assert_eq!(i16_le_bytes(-1), (0xFF, 0xFF));
    assert_eq!(i16_from_le(0xFF, 0xFF), -1);
    assert_eq!(i16_from_le(0x00, 0x80), i16::MIN);
    for v in [-32768i16, -4096, -1, 0, 1, 2048, 32767] {
        let (b0, b1) = i16_le_bytes(v);
        assert_eq!(i16_from_le(b0, b1), v);
    }
}

#[test]
fn scan_present_only_for_echoing_ids() {
    let mut present = Vec::new();
    for id in 0u8..=253 {
        let read_result = if id == 5 || id == 12 {
            Some(vec![id])
        } else {
            None
        };
        if scan_decision(id, &read_result) {
            present.push(id);
        }
    }
    assert_eq!(present, vec![5, 12]);
}

#[test]
fn scan_rejects_wrong_echo() {
    assert!(!scan_decision(4, &Some(vec![5])));
    assert!(!scan_decision(4, &Some(vec![4, 4])));
    assert!(scan_decision(4, &Some(vec![4])));
}

fn multi_write_skip_command() -> ServoMultipleWriteCommand {
    let mut cmd = ServoMultipleWriteCommand {
        only_write_positions: true,
        ids: [0; 16],
        positions: [0; 16],
        times: [0; 16],
        speeds: [0; 16],
    };
    cmd.ids[0] = 1;
    cmd.positions[0] = 1000;
    cmd.ids[2] = 3;
    cmd.positions[2] = 2000;
    cmd
}

#[test]
fn multi_write_skips_unused_slots() {
    // ids = [1, 0, 3, ...]: exactly two servo entries go on the wire.
    let cmd = multi_write_skip_command();
    let payload = sync_write_payload(&cmd);
    assert_eq!(payload.len(), 2 + 2 * 3);
    assert_eq!(payload[0], 0x2A);
    assert_eq!(payload[1], 2);
    assert_eq!(&payload[2..5], &[1, 0xE8, 0x03]);
    assert_eq!(&payload[5..8], &[3, 0xD0, 0x07]);
}

#[test]
fn multi_write_full_payload_entries() {
    let mut cmd = multi_write_skip_command();
    cmd.only_write_positions = false;
    cmd.times[0] = 20;
    cmd.speeds[2] = 500;
    let payload = sync_write_payload(&cmd);
    assert_eq!(payload.len(), 2 + 2 * 7);
    assert_eq!(payload[1], 6);
    assert_eq!(&payload[2..9], &[1, 0xE8, 0x03, 20, 0, 0, 0]);
    assert_eq!(&payload[9..16], &[3, 0xD0, 0x07, 0, 0, 0xF4, 0x01]);
}

#[test]
fn sync_write_frame_is_broadcast() {
    let cmd = multi_write_skip_command();
    let frame = sync_write_request(&cmd);
    assert_eq!(frame[2], 0xFE);
    assert_eq!(frame[4], 0x83);
    // A broadcast frame is still a well-formed frame.
    let parsed = parse_frame(&frame).unwrap();
    assert_eq!(parsed.id, 0xFE);
}

#[test]
fn write_frame_carries_address_then_data() {
    let frame = write_request(2, 0x28, &vec![1]);
    let parsed = parse_frame(&frame).unwrap();
    assert_eq!(parsed.params, vec![0x28, 1]);
}

#[test]
fn speed_word_sets_direction_bit() {
    assert_eq!(speed_word(150, ServoDirection::Clockwise), 150);
    assert_eq!(speed_word(150, ServoDirection::Counterclockwise), 0x8000 | 150);
}

#[test]
fn memory_write_request_uses_register_width() {
    let frame = write_servo_memory_request(1, ServoRegister::MinAngleLimit, 1750);
    let parsed = parse_frame(&frame).unwrap();
    assert_eq!(parsed.params, vec![0x09, 0xD6, 0x06]);
    let frame = write_servo_memory_request(1, ServoRegister::ID, 9);
    let parsed = parse_frame(&frame).unwrap();
    assert_eq!(parsed.params, vec![0x05, 9]);
}

#[test]
fn angle_limit_decoding() {
    let min_data = vec![0xD6, 0x06];
    let max_data = vec![0x2A, 0x09];
    assert_eq!(decode_angle_limits(&min_data, &max_data), Ok((1750, 2346)));
    assert!(decode_angle_limits(&vec![1], &max_data).is_err());
}

#[test]
fn move_multiple_sends_every_pair() {
    let ids = vec![1u8, 2, 3];
    let positions = vec![1000i16, 2000, 3000];
    let frame = move_multiple_request(&ids, &positions).unwrap();
    let parsed = parse_frame(&frame).unwrap();
    assert_eq!(parsed.id, 0xFE);
    assert_eq!(
        parsed.params,
        vec![0x2A, 2, 1, 0xE8, 0x03, 2, 0xD0, 0x07, 3, 0xB8, 0x0B]
    );
}

#[test]
fn move_multiple_rejects_mismatched_lists() {
    assert!(move_multiple_request(&vec![1, 2], &vec![100]).is_err());
    assert!(move_multiple_request(&vec![0u8; 84], &vec![0i16; 84]).is_err());
    assert!(move_multiple_request(&vec![0u8; 83], &vec![0i16; 83]).is_ok());
}
