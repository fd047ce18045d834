use servobus::angles::{clamp, degrees_to_raw, raw_to_degrees};
use servobus::registers::{
    opposite_direction, toggle_torque_mode, MemoryLockState, ServoDirection, ServoMode,
    ServoRegister, TorqueMode,
};
use servobus::telemetry::{
    capabilities_from_version, current_milliamps, load_components, operation_mode_byte,
    parse_servo_info, polling_rate_centihertz, scaled_speed, speed_centidegrees, speed_components,
    speed_magnitude_ticks, ServoCapabilities, ServoInfo, Telemetry,
};

#[test]
fn angle_conversion_fixed_points() {
    assert_eq!(degrees_to_raw(0), 2048);
    assert_eq!(raw_to_degrees(2048), 0);
    assert_eq!(degrees_to_raw(-18000), 0);
    assert_eq!(raw_to_degrees(0), -18000);
    assert_eq!(degrees_to_raw(18000), 4095);
}

#[test]
fn angle_conversion_round_trip_within_one_tick() {
    for cd in (-18000i32..=18000).step_by(37) {
        let back = raw_to_degrees(degrees_to_raw(cd));
        assert!((back - cd).abs() <= 9, "angle {} came back as {}", cd, back);
    }
    let back = raw_to_degrees(degrees_to_raw(18000));
    assert!((back - 18000).abs() <= 9);
}

#[test]
fn angle_conversion_clamps_and_is_monotonic() {
    assert_eq!(degrees_to_raw(25000), degrees_to_raw(18000));
    assert_eq!(degrees_to_raw(-25000), degrees_to_raw(-18000));
    assert_eq!(raw_to_degrees(9999), raw_to_degrees(4095));
    let mut prev = degrees_to_raw(-18000);
    for cd in (-18000i32..=18000).step_by(101) {
        let raw = degrees_to_raw(cd);
        assert!(raw >= prev);
        prev = raw;
    }
}

#[test]
fn clamp_behaviour() {
    assert_eq!(clamp(5, 10, 20), 10);
    assert_eq!(clamp(25, 10, 20), 20);
    assert_eq!(clamp(15, 10, 20), 15);
}

#[test]
fn register_catalog_constants() {
    assert_eq!(ServoRegister::ID.address(), 0x05);
    assert_eq!(ServoRegister::LockMark.address(), 0x37);
    assert_eq!(ServoRegister::TargetLocation.address(), 0x2A);
    assert_eq!(ServoRegister::CurrentCurrent.address(), 0x45);
    assert_eq!(ServoRegister::MinAngleLimit.width(), 2);
    assert_eq!(ServoRegister::ID.width(), 1);
    assert!(ServoRegister::ID.is_eeprom());
    assert!(ServoRegister::PositionCorrection.is_eeprom());
    assert!(!ServoRegister::TorqueSwitch.is_eeprom());
    assert!(!ServoRegister::LockMark.is_eeprom());
    assert_eq!(MemoryLockState::Unlocked.byte(), 0);
    assert_eq!(MemoryLockState::Locked.byte(), 1);
    assert_eq!(ServoMode::ConstantSpeed.byte(), 1);
    assert_eq!(TorqueMode::Enabled.byte(), 1);
}

#[test]
fn direction_flips() {
    assert_eq!(
        opposite_direction(ServoDirection::Clockwise),
        ServoDirection::Counterclockwise
    );
    assert_eq!(
        opposite_direction(ServoDirection::Counterclockwise),
        ServoDirection::Clockwise
    );
}

#[test]
fn servo_info_parses_all_fields() {
    let mut data = vec![0u8; 30];
    data[0] = 1; // torque on
    data[1] = 7; // acceleration
    data[2] = 0x00;
    data[3] = 0x08; // target location 2048
    data[4] = 0xE8;
    data[5] = 0x03; // running time 1000
    data[6] = 0x2C;
    data[7] = 0x01; // running speed 300
    data[8] = 0x58;
    data[9] = 0x02; // torque limit 600
    data[15] = 1; // lock mark
    data[16] = 0xFF;
    data[17] = 0xFF; // current location -1
    data[18] = 0x05;
    data[19] = 0x80; // current speed, sign-magnitude: -5
    data[20] = 0x0A;
    data[21] = 0x04; // current load, sign-magnitude: -10
    data[22] = 74; // 7.4 V
    data[23] = 31; // 31 degrees
    data[25] = 0x20; // status bits
    data[26] = 1; // moving
    data[28] = 0x64;
    data[29] = 0x00; // current 100
    let info = parse_servo_info(&data).unwrap();
    assert_eq!(info.torque_switch, 1);
    assert_eq!(info.acceleration, 7);
    assert_eq!(info.target_location, 2048);
    assert_eq!(info.running_time, 1000);
    assert_eq!(info.running_speed, 300);
    assert_eq!(info.torque_limit, 600);
    assert_eq!(info.lock_mark, 1);
    assert_eq!(info.current_location, -1);
    assert_eq!(info.current_voltage, 74);
    assert_eq!(info.current_temperature, 31);
    assert_eq!(info.servo_status, 0x20);
    assert_eq!(info.mobile_sign, 1);
    assert_eq!(info.current_current, 100);
    let (speed_reverse, speed_mag) = speed_components(info.current_speed);
    assert!(speed_reverse);
    assert_eq!(speed_mag, 5);
    let (load_reverse, load_mag) = load_components(info.current_load);
    assert!(load_reverse);
    assert_eq!(load_mag, 10);
}

#[test]
fn servo_info_wrong_length_rejected() {
    assert!(parse_servo_info(&vec![0u8; 29]).is_err());
    assert!(parse_servo_info(&vec![0u8; 31]).is_err());
}

#[test]
fn sign_magnitude_forward_values() {
    let (reverse, mag) = speed_components(300);
    assert!(!reverse);
    assert_eq!(mag, 300);
    let (reverse, mag) = load_components(300);
    assert!(!reverse);
    assert_eq!(mag, 300);
}

#[test]
fn current_scaling_by_revision() {
    let plain = ServoCapabilities { version_major: 9, version_minor: 1 };
    let fine = ServoCapabilities { version_major: 9, version_minor: 3 };
    let single_loop = ServoCapabilities { version_major: 10, version_minor: 0 };
    // Nominal 6.5 mA per LSB, reported in hundredths.
    assert_eq!(current_milliamps(1000, plain), 65);
    assert_eq!(current_milliamps(1000, fine), 422);
    assert_eq!(current_milliamps(1000, single_loop), 6500);
    // The sign bit is stripped before scaling.
    assert_eq!(current_milliamps(0x8000 | 1000, plain), 65);
    // The single-loop scaling saturates rather than wraps.
    assert_eq!(current_milliamps(0x7FFF, single_loop), 65535);
}

#[test]
fn speed_and_mode_by_revision() {
    let plain = ServoCapabilities { version_major: 9, version_minor: 1 };
    let single_loop = ServoCapabilities { version_major: 10, version_minor: 0 };
    assert_eq!(scaled_speed(150, plain), 150);
    assert_eq!(scaled_speed(150, single_loop), 3);
    assert_eq!(operation_mode_byte(ServoMode::Position, plain), 0);
    assert_eq!(operation_mode_byte(ServoMode::Position, single_loop), 4);
    assert_eq!(operation_mode_byte(ServoMode::ConstantSpeed, single_loop), 1);
}

fn distinct_info(mark: u8) -> ServoInfo {
    let mut info = ServoInfo::empty();
    info.current_temperature = mark;
    info
}

#[test]
fn telemetry_refresh_updates_and_counts() {
    let mut telemetry = Telemetry::new();
    assert_eq!(telemetry.poll_count(), 0);
    let mut readings: Vec<Option<ServoInfo>> = vec![None; 16];
    readings[0] = Some(distinct_info(40));
    readings[3] = Some(distinct_info(41));
    telemetry.refresh(&readings);
    assert_eq!(telemetry.poll_count(), 1);
    let table = telemetry.read_all();
    assert_eq!(table.servo.len(), 16);
    assert_eq!(table.servo[0].current_temperature, 40);
    assert_eq!(table.servo[3].current_temperature, 41);
    assert_eq!(table.servo[1], ServoInfo::empty());
}

#[test]
fn telemetry_failed_slot_keeps_previous_snapshot() {
    let mut telemetry = Telemetry::new();
    let mut readings: Vec<Option<ServoInfo>> = vec![None; 16];
    readings[2] = Some(distinct_info(55));
    telemetry.refresh(&readings);
    // Next cycle servo 3 does not answer: its slot stays at the last good
    // snapshot instead of clearing.
    let silent: Vec<Option<ServoInfo>> = vec![None; 16];
    telemetry.refresh(&silent);
    let table = telemetry.read_all();
    assert_eq!(table.servo[2].current_temperature, 55);
    assert_eq!(table.task_run_count, 2);
}

#[test]
fn telemetry_pause_and_resume() {
    let mut telemetry = Telemetry::new();
    assert!(!telemetry.enabled);
    telemetry.enable();
    assert!(telemetry.enabled);
    telemetry.disable();
    assert!(!telemetry.enabled);
}

#[test]
fn speed_word_conversion() {
    // 1024 ticks per second is a quarter turn: 9000 centidegrees.
    assert_eq!(speed_centidegrees(1024), 9000);
    assert_eq!(speed_centidegrees((0x8000u16 | 1024) as i16), -9000);
    assert_eq!(speed_centidegrees(0), 0);
}

#[test]
fn torque_toggle_flips() {
    assert_eq!(toggle_torque_mode(0), TorqueMode::Enabled);
    assert_eq!(toggle_torque_mode(1), TorqueMode::Disabled);
    assert_eq!(toggle_torque_mode(2), TorqueMode::Disabled);
}

#[test]
fn speed_magnitude_conversion() {
    // A quarter turn per second is 1024 ticks per second.
    assert_eq!(speed_magnitude_ticks(9000), 1024);
    assert_eq!(speed_magnitude_ticks(-9000), 1024);
    assert_eq!(speed_magnitude_ticks(0), 0);
    // Far beyond the wire range: saturates at the 15-bit magnitude.
    assert_eq!(speed_magnitude_ticks(i32::MAX), 0x7FFF);
}

#[test]
fn capability_record_from_version_bytes() {
    let caps = capabilities_from_version(&vec![10, 2]).unwrap();
    assert_eq!(caps, ServoCapabilities { version_major: 10, version_minor: 2 });
    assert!(capabilities_from_version(&vec![10]).is_err());
}

#[test]
fn polling_rate_from_counter_delta() {
    // 50 polls over one second is 50 Hz.
    assert_eq!(polling_rate_centihertz(50, 1000), 5000);
    // 3 polls over two seconds is 1.5 Hz.
    assert_eq!(polling_rate_centihertz(3, 2000), 150);
    assert_eq!(polling_rate_centihertz(0, 20), 0);
}
