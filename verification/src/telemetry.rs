//! Telemetry: the per-servo snapshot, its wire decoding, the revision
//! capability record, and the aggregator that keeps one up-to-date snapshot
//! per tracked servo together with a monotonic poll counter.

use vstd::prelude::*;
use crate::bus::{i16_from_le, u16_from_le, spec_i16_le, spec_u16_le};
use crate::codec::BusError;
use crate::registers::ServoMode;
use crate::MAX_SERVOS;

verus! {

/// Point-in-time record of one servo's registers, decoded from the block
/// read that starts at the torque-switch register.
#[derive(Clone, Copy, Debug, PartialEq, Eq, Structural)]
pub struct ServoInfo {
    pub torque_switch: u8,
    pub acceleration: u8,
    pub target_location: i16,
    pub running_time: u16,
    pub running_speed: u16,
    pub torque_limit: u16,
    pub lock_mark: u8,
    pub current_location: i16,
    pub current_speed: i16,
    pub current_load: i16,
    pub current_voltage: u8,
    pub current_temperature: u8,
    pub async_write_flag: u8,
    pub servo_status: u8,
    pub mobile_sign: u8,
    pub current_current: u16,
}

impl ServoInfo {
    /// The all-zero snapshot a slot holds before its servo has ever
    /// answered.
    pub open spec fn spec_empty() -> ServoInfo {
        ServoInfo {
            torque_switch: 0,
            acceleration: 0,
            target_location: 0,
            running_time: 0,
            running_speed: 0,
            torque_limit: 0,
            lock_mark: 0,
            current_location: 0,
            current_speed: 0,
            current_load: 0,
            current_voltage: 0,
            current_temperature: 0,
            async_write_flag: 0,
            servo_status: 0,
            mobile_sign: 0,
            current_current: 0,
        }
    }

    /// Returns the all-zero snapshot.
    pub fn empty() -> (r: ServoInfo)
        ensures
            r == ServoInfo::spec_empty(),
    {
        ServoInfo {
            torque_switch: 0,
            acceleration: 0,
            target_location: 0,
            running_time: 0,
            running_speed: 0,
            torque_limit: 0,
            lock_mark: 0,
            current_location: 0,
            current_speed: 0,
            current_load: 0,
            current_voltage: 0,
            current_temperature: 0,
            async_write_flag: 0,
            servo_status: 0,
            mobile_sign: 0,
            current_current: 0,
        }
    }

    /// True of a reading whose key fields are all zero: during calibration
    /// such a reading is treated as a transient bus glitch and retried.
    pub open spec fn spec_is_all_zero(self) -> bool {
        self.current_current == 0 && self.current_location == 0
    }

    /// Returns whether the reading looks like a transient all-zero glitch.
    pub fn is_all_zero(&self) -> (r: bool)
        ensures
            r == self.spec_is_all_zero(),
    {
        self.current_current == 0 && self.current_location == 0
    }
}

/// Number of bytes of the telemetry block read.
pub const SERVO_INFO_BYTES: usize = 30;

/// Decodes the telemetry block read into a snapshot. The block starts at the
/// torque-switch register; multi-byte registers are little endian.
pub fn parse_servo_info(data: &Vec<u8>) -> (r: Result<ServoInfo, BusError>)
    ensures
        r is Ok <==> data@.len() == SERVO_INFO_BYTES,
        r matches Ok(info) ==> {
            &&& info.torque_switch == data@[0]
            &&& info.acceleration == data@[1]
            &&& info.target_location as int == spec_i16_le(data@[2], data@[3])
            &&& info.running_time == spec_u16_le(data@[4], data@[5])
            &&& info.running_speed == spec_u16_le(data@[6], data@[7])
            &&& info.torque_limit == spec_u16_le(data@[8], data@[9])
            &&& info.lock_mark == data@[15]
            &&& info.current_location as int == spec_i16_le(data@[16], data@[17])
            &&& info.current_speed as int == spec_i16_le(data@[18], data@[19])
            &&& info.current_load as int == spec_i16_le(data@[20], data@[21])
            &&& info.current_voltage == data@[22]
            &&& info.current_temperature == data@[23]
            &&& info.async_write_flag == data@[24]
            &&& info.servo_status == data@[25]
            &&& info.mobile_sign == data@[26]
            &&& info.current_current == spec_u16_le(data@[28], data@[29])
        },
{
    if data.len() != SERVO_INFO_BYTES {
        return Err(BusError::LengthMismatch);
    }
    Ok(ServoInfo {
        torque_switch: data[0],
        acceleration: data[1],
        target_location: i16_from_le(data[2], data[3]),
        running_time: u16_from_le(data[4], data[5]),
        running_speed: u16_from_le(data[6], data[7]),
        torque_limit: u16_from_le(data[8], data[9]),
        lock_mark: data[15],
        current_location: i16_from_le(data[16], data[17]),
        current_speed: i16_from_le(data[18], data[19]),
        current_load: i16_from_le(data[20], data[21]),
        current_voltage: data[22],
        current_temperature: data[23],
        async_write_flag: data[24],
        servo_status: data[25],
        mobile_sign: data[26],
        current_current: u16_from_le(data[28], data[29]),
    })
}

/// Takes apart a sign-magnitude speed word: the high bit is the direction,
/// the low 15 bits the magnitude.
pub fn speed_components(raw: i16) -> (r: (bool, u16))
    ensures
        r.1 == (raw as u16) % 0x8000,
        r.0 <==> (raw as u16) >= 0x8000,
{
    let w: u16 = raw as u16;
    proof {
        assert((w & 0x7FFF) == w % 0x8000) by (bit_vector);
        assert((w & 0x8000) != 0 <==> w >= 0x8000) by (bit_vector);
    }
    ((w & 0x8000) != 0, w & 0x7FFF)
}

/// Takes apart a sign-magnitude load word: bit 10 is the direction, the low
/// 10 bits the magnitude.
pub fn load_components(raw: i16) -> (r: (bool, u16))
    ensures
        r.1 == (raw as u16) % 0x400,
        r.0 <==> ((raw as u16) / 0x400) % 2 == 1,
{
    let w: u16 = raw as u16;
    proof {
        assert((w & 0x3FF) == w % 0x400) by (bit_vector);
        assert((w & 0x400) != 0 <==> (w / 0x400) % 2 == 1) by (bit_vector);
    }
    ((w & 0x400) != 0, w & 0x3FF)
}

/// The signed rotation speed of a sign-magnitude speed word, in
/// centidegrees per second: one raw unit is one tick per second, 360/4096
/// of a degree.
pub open spec fn spec_speed_centidegrees(raw: i16) -> int {
    let w = raw as u16;
    let magnitude = (w % 0x8000) * 36000 / 4096;
    if w >= 0x8000 {
        -magnitude
    } else {
        magnitude
    }
}

/// Converts a sign-magnitude speed word to signed centidegrees per second.
pub fn speed_centidegrees(raw: i16) -> (r: i32)
    ensures
        r == spec_speed_centidegrees(raw),
        -288000 < r < 288000,
{
    let (reverse, magnitude) = speed_components(raw);
    let scaled: i32 = (magnitude as i32) * 36000 / 4096;
    if reverse {
        -scaled
    } else {
        scaled
    }
}

/// The speed magnitude in raw ticks per second of a signed speed given in
/// centidegrees per second, saturating at the largest magnitude the wire
/// word carries.
pub open spec fn spec_speed_magnitude_ticks(centidegrees_per_second: int) -> int {
    let m = if centidegrees_per_second < 0 {
        -centidegrees_per_second
    } else {
        centidegrees_per_second
    };
    let t = m * 4096 / 36000;
    if t > 0x7FFF {
        0x7FFF
    } else {
        t
    }
}

/// Converts a signed speed in centidegrees per second to the raw speed
/// magnitude.
pub fn speed_magnitude_ticks(centidegrees_per_second: i32) -> (r: u16)
    ensures
        r == spec_speed_magnitude_ticks(centidegrees_per_second as int),
{
    let wide: i64 = centidegrees_per_second as i64;
    let magnitude: i64 = if wide < 0 { -wide } else { wide };
    let ticks: i64 = magnitude * 4096 / 36000;
    proof {
        vstd::arithmetic::div_mod::lemma_div_is_ordered(0, magnitude * 4096, 36000);
    }
    if ticks > 0x7FFF {
        0x7FFF
    } else {
        ticks as u16
    }
}

/// The per-servo hardware capability record, read once at startup from the
/// main and sub version registers and consulted by every revision-dependent
/// operation.
#[derive(Clone, Copy, Debug, PartialEq, Eq, Structural)]
pub struct ServoCapabilities {
    pub version_major: u8,
    pub version_minor: u8,
}

impl ServoCapabilities {
    /// The hardware revision whose position control is a single loop: its
    /// moves use a dedicated mode byte, its speeds are pre-divided, and its
    /// current telemetry is scaled differently.
    pub open spec fn spec_is_single_loop(self) -> bool {
        self.version_major == 10
    }

    /// Returns whether this revision uses single-loop position control.
    pub fn is_single_loop(&self) -> (r: bool)
        ensures
            r == self.spec_is_single_loop(),
    {
        self.version_major == 10
    }
}

/// Builds the capability record from the two-byte read of the main version
/// register block: the main version, then the sub version.
pub fn capabilities_from_version(data: &Vec<u8>) -> (r: Result<ServoCapabilities, BusError>)
    ensures
        r is Ok <==> data@.len() == 2,
        r matches Ok(caps) ==> caps.version_major == data@[0] && caps.version_minor == data@[1],
{
    if data.len() == 2 {
        Ok(ServoCapabilities { version_major: data[0], version_minor: data[1] })
    } else {
        Err(BusError::LengthMismatch)
    }
}

/// Mode byte of single-loop position control on the revisions that have it.
pub const SINGLE_LOOP_POSITION_MODE: u8 = 4;

/// The byte written to the operation-mode register for `mode` on a servo
/// with capabilities `caps`: on single-loop revisions, position mode is
/// remapped to the revision's own position mode byte.
pub open spec fn spec_operation_mode_byte(mode: ServoMode, caps: ServoCapabilities) -> u8 {
    if mode == ServoMode::Position && caps.spec_is_single_loop() {
        SINGLE_LOOP_POSITION_MODE
    } else {
        mode.spec_byte()
    }
}

/// Returns the operation-mode byte for `mode` under capabilities `caps`.
pub fn operation_mode_byte(mode: ServoMode, caps: ServoCapabilities) -> (b: u8)
    ensures
        b == spec_operation_mode_byte(mode, caps),
{
    if caps.is_single_loop() {
        match mode {
            ServoMode::Position => SINGLE_LOOP_POSITION_MODE,
            _ => mode.byte(),
        }
    } else {
        mode.byte()
    }
}

/// The current of a raw current reading in milliamperes, by hardware
/// revision. The nominal step is 6.5 mA per least significant bit; one
/// revision reports in steps a hundred times finer, another in raw units
/// that want the nominal factor applied directly and can exceed the 16-bit
/// range, where the value saturates.
pub open spec fn spec_current_milliamps(raw: u16, caps: ServoCapabilities) -> int {
    let m = raw % 0x8000;
    if caps.version_major == 10 {
        let scaled = m * 65 / 10;
        if scaled > 65535 {
            65535
        } else {
            scaled
        }
    } else if caps.version_major == 9 && caps.version_minor == 3 {
        m * 4225 / 10000
    } else {
        m * 65 / 1000
    }
}

/// Converts a raw current reading to milliamperes for revision `caps`.
pub fn current_milliamps(raw: u16, caps: ServoCapabilities) -> (ma: u16)
    ensures
        ma == spec_current_milliamps(raw, caps),
{
    proof {
        assert((raw & 0x7FFF) == raw % 0x8000) by (bit_vector);
    }
    let m: u32 = (raw & 0x7FFF) as u32;
    if caps.version_major == 10 {
        let scaled: u32 = m * 65 / 10;
        if scaled > 65535 {
            65535
        } else {
            scaled as u16
        }
    } else if caps.version_major == 9 && caps.version_minor == 3 {
        (m * 4225 / 10000) as u16
    } else {
        (m * 65 / 1000) as u16
    }
}

/// The speed magnitude actually sent for revision `caps`: single-loop
/// revisions expect the speed pre-divided by 50.
pub open spec fn spec_scaled_speed(speed: u16, caps: ServoCapabilities) -> u16 {
    if caps.spec_is_single_loop() {
        (speed / 50) as u16
    } else {
        speed
    }
}

/// Applies the revision speed scaling.
pub fn scaled_speed(speed: u16, caps: ServoCapabilities) -> (r: u16)
    ensures
        r == spec_scaled_speed(speed, caps),
{
    if caps.is_single_loop() {
        speed / 50
    } else {
        speed
    }
}

/// The published telemetry table: one snapshot per tracked slot and the
/// monotonically increasing poll counter.
pub struct ServoData {
    pub servo: Vec<ServoInfo>,
    pub task_run_count: u32,
}

impl ServoData {
    /// A well-formed table has exactly one slot per tracked servo.
    pub open spec fn wf(self) -> bool {
        self.servo@.len() == MAX_SERVOS
    }
}

/// The telemetry aggregator: owns the latest published table and whether the
/// background poll is running. Direct point-to-point exchanges (manual
/// moves, calibration) disable the poll first, because both sides would
/// otherwise interleave frames on the half-duplex bus.
pub struct Telemetry {
    pub data: ServoData,
    pub enabled: bool,
}

impl Telemetry {
    /// A well-formed aggregator holds a well-formed table.
    pub open spec fn wf(self) -> bool {
        self.data.wf()
    }

    /// Creates an aggregator with every slot empty, the poll counter at
    /// zero, and the background poll disabled.
    pub fn new() -> (r: Telemetry)
        ensures
            r.wf(),
            r.data.task_run_count == 0,
            !r.enabled,
            forall|i: int| 0 <= i < MAX_SERVOS ==> r.data.servo@[i] == ServoInfo::spec_empty(),
    {
        let mut servo: Vec<ServoInfo> = Vec::new();
        let mut i: usize = 0;
        while i < MAX_SERVOS
            invariant
                0 <= i <= MAX_SERVOS,
                servo@.len() == i,
                forall|j: int| 0 <= j < i ==> servo@[j] == ServoInfo::spec_empty(),
            decreases MAX_SERVOS - i,
        {
            servo.push(ServoInfo::empty());
            i = i + 1;
        }
        Telemetry { data: ServoData { servo, task_run_count: 0 }, enabled: false }
    }

    /// Resumes the background poll.
    pub fn enable(&mut self)
        ensures
            final(self).enabled,
            final(self).data == old(self).data,
    {
        self.enabled = true;
    }

    /// Pauses the background poll, so that a direct exchange can own the
    /// bus.
    pub fn disable(&mut self)
        ensures
            !final(self).enabled,
            final(self).data == old(self).data,
    {
        self.enabled = false;
    }

    /// Publishes one poll cycle: every slot whose servo answered gets the
    /// fresh snapshot, a slot whose exchange failed keeps its previous
    /// snapshot for this cycle, and the poll counter advances by one.
    pub fn refresh(&mut self, readings: &Vec<Option<ServoInfo>>)
        requires
            old(self).wf(),
            readings@.len() == MAX_SERVOS,
            old(self).data.task_run_count < u32::MAX,
        ensures
            final(self).wf(),
            final(self).enabled == old(self).enabled,
            final(self).data.task_run_count == old(self).data.task_run_count + 1,
            forall|i: int| 0 <= i < MAX_SERVOS ==> final(self).data.servo@[i] == (
                match readings@[i] {
                    Some(info) => info,
                    None => old(self).data.servo@[i],
                }
            ),
    {
        let mut i: usize = 0;
        while i < MAX_SERVOS
            invariant
                0 <= i <= MAX_SERVOS,
                self.wf(),
                readings@.len() == MAX_SERVOS,
                self.enabled == old(self).enabled,
                self.data.task_run_count == old(self).data.task_run_count,
                old(self).data.task_run_count < u32::MAX,
                forall|j: int| i <= j < MAX_SERVOS
                    ==> self.data.servo@[j] == old(self).data.servo@[j],
                forall|j: int| 0 <= j < i ==> self.data.servo@[j] == (
                    match readings@[j] {
                        Some(info) => info,
                        None => old(self).data.servo@[j],
                    }
                ),
            decreases MAX_SERVOS - i,
        {
            match &readings[i] {
                Some(info) => {
                    self.data.servo.set(i, *info);
                },
                None => {},
            }
            i = i + 1;
        }
        self.data.task_run_count = self.data.task_run_count + 1;
    }

    /// Returns a consistent copy of the latest published table, without
    /// waiting for the next poll.
    pub fn read_all(&self) -> (r: ServoData)
        requires
            self.wf(),
        ensures
            r.wf(),
            r.servo@ == self.data.servo@,
            r.task_run_count == self.data.task_run_count,
    {
        let mut servo: Vec<ServoInfo> = Vec::new();
        let mut i: usize = 0;
        while i < MAX_SERVOS
            invariant
                0 <= i <= MAX_SERVOS,
                self.wf(),
                servo@.len() == i,
                forall|j: int| 0 <= j < i ==> servo@[j] == self.data.servo@[j],
            decreases MAX_SERVOS - i,
        {
            servo.push(self.data.servo[i]);
            i = i + 1;
        }
        proof {
            assert(servo@ =~= self.data.servo@);
        }
        ServoData { servo, task_run_count: self.data.task_run_count }
    }

    /// Returns the poll counter: two readings a known time apart give the
    /// observed polling rate.
    pub fn poll_count(&self) -> (r: u32)
        ensures
            r == self.data.task_run_count,
    {
        self.data.task_run_count
    }
}

/// The observed polling rate in centihertz, from the poll-counter delta over
/// a wall-time window: a sustained fall signals bus degradation.
pub open spec fn spec_polling_rate_centihertz(count_delta: int, elapsed_ms: int) -> int {
    count_delta * 100000 / elapsed_ms
}

/// Computes the observed polling rate in centihertz over a wall-time window.
pub fn polling_rate_centihertz(count_delta: u32, elapsed_ms: u64) -> (r: u64)
    requires
        elapsed_ms > 0,
    ensures
        r == spec_polling_rate_centihertz(count_delta as int, elapsed_ms as int),
{
    proof {
        vstd::arithmetic::div_mod::lemma_div_is_ordered(
            count_delta as int * 100000,
            0xFFFF_FFFFint * 100000,
            elapsed_ms as int,
        );
    }
    count_delta as u64 * 100000 / elapsed_ms
}

} // verus!
