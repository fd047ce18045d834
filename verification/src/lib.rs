//! Verified core of a driver for a bus of daisy-chained smart servo
//! actuators: wire-level frame codec, register catalog, bus operation
//! builders, telemetry aggregation, and the auto-calibration state machine.

pub mod angles;
pub mod bus;
pub mod calibration;
pub mod codec;
pub mod eeprom;
pub mod registers;
pub mod replay;
pub mod telemetry;

use vstd::prelude::*;

verus! {

/// Number of servo slots the telemetry aggregator tracks.
pub const MAX_SERVOS: usize = 16;

/// The broadcast address: commands sent to it get no response frame.
pub const SERVO_BROADCAST_ID: u8 = 0xFE;

} // verus!
