//! Bus driver operations, as pure functions: each operation of the servo bus
//! is a request frame built here and handed to the transport, and a response
//! frame handed back and validated here. Broadcast frames (to address 0xFE)
//! expect no response.

use vstd::prelude::*;
use crate::codec::{
    build_frame, parse_frame, spec_frame, spec_parse, BusError,
    SERVO_CMD_ACTION, SERVO_CMD_PING, SERVO_CMD_READ, SERVO_CMD_REG_WRITE, SERVO_CMD_RESET,
    SERVO_CMD_SYNC_WRITE, SERVO_CMD_WRITE,
};
use crate::registers::{ServoDirection, ServoRegister};
use crate::MAX_SERVOS;
use crate::SERVO_BROADCAST_ID;

verus! {

/// Address of the target-location register block that motion commands and
/// synchronized batched writes start at.
pub const SERVO_ADDR_TARGET_POSITION: u8 = 0x2A;

/// A single read or write operation, as data: target servo, register
/// address, requested length, and (for writes) the data bytes.
#[derive(Clone, Debug)]
pub struct ServoCommand {
    pub id: u8,
    pub address: u8,
    pub length: u8,
    pub data: Vec<u8>,
}

/// A batched position command for every tracked servo slot. A slot whose id
/// is 0 is unused and is skipped on send.
pub struct ServoMultipleWriteCommand {
    pub only_write_positions: bool,
    pub ids: [u8; MAX_SERVOS],
    pub positions: [i16; MAX_SERVOS],
    pub times: [u16; MAX_SERVOS],
    pub speeds: [u16; MAX_SERVOS],
}

/// Low byte of a 16-bit word as sent on the wire (little endian).
pub open spec fn spec_lo(v: u16) -> u8 {
    (v % 256) as u8
}

/// High byte of a 16-bit word as sent on the wire (little endian).
pub open spec fn spec_hi(v: u16) -> u8 {
    (v / 256) as u8
}

/// The signed 16-bit value carried by a little-endian byte pair.
pub open spec fn spec_i16_le(b0: u8, b1: u8) -> int {
    if b1 < 128 {
        b0 + 256 * b1
    } else {
        b0 + 256 * b1 - 65536
    }
}

/// The unsigned 16-bit value carried by a little-endian byte pair.
pub open spec fn spec_u16_le(b0: u8, b1: u8) -> int {
    b0 + 256 * b1
}

/// Splits an unsigned 16-bit word into its little-endian wire bytes.
pub fn u16_le_bytes(v: u16) -> (r: (u8, u8))
    ensures
        r.0 == spec_lo(v),
        r.1 == spec_hi(v),
        r.0 + 256 * r.1 == v,
{
    proof {
        assert((v & 0xFF) == v % 256 && (v >> 8) == v / 256) by (bit_vector);
        assert(v % 256 + 256 * (v / 256) == v) by (bit_vector);
    }
    ((v & 0xFF) as u8, (v >> 8) as u8)
}

/// Splits a signed 16-bit word into its little-endian wire bytes
/// (two's complement).
pub fn i16_le_bytes(v: i16) -> (r: (u8, u8))
    ensures
        spec_i16_le(r.0, r.1) == v,
        r.0 == spec_lo(v as u16),
        r.1 == spec_hi(v as u16),
{
    let w: u16 = v as u16;
    proof {
        assert(w == v as u16 ==> spec_i16_le((w % 256) as u8, (w / 256) as u8) == v) by (bit_vector);
        assert((w & 0xFF) == w % 256 && (w >> 8) == w / 256) by (bit_vector);
    }
    ((w & 0xFF) as u8, (w >> 8) as u8)
}

/// Reads back the unsigned 16-bit word from its little-endian wire bytes.
pub fn u16_from_le(b0: u8, b1: u8) -> (v: u16)
    ensures
        v == spec_u16_le(b0, b1),
        b0 == spec_lo(v),
        b1 == spec_hi(v),
{
    b0 as u16 + 256 * b1 as u16
}

/// Reads back the signed 16-bit word from its little-endian wire bytes.
pub fn i16_from_le(b0: u8, b1: u8) -> (v: i16)
    ensures
        v as int == spec_i16_le(b0, b1),
{
    let w: u16 = b0 as u16 + 256 * b1 as u16;
    proof {
        assert(w == b0 + 256 * b1 ==> (w as i16) as int == spec_i16_le(b0, b1)) by (bit_vector);
    }
    w as i16
}

/// Builds the ping request for `id`.
pub fn ping_request(id: u8) -> (frame: Vec<u8>)
    ensures
        frame@ == spec_frame(id, SERVO_CMD_PING, Seq::<u8>::empty()),
{
    let params: Vec<u8> = Vec::new();
    build_frame(id, SERVO_CMD_PING, &params)
}

/// Builds the request that reads `length` bytes starting at register
/// address `address` of servo `id`.
pub fn read_request(id: u8, address: u8, length: u8) -> (frame: Vec<u8>)
    ensures
        frame@ == spec_frame(id, SERVO_CMD_READ, seq![address, length]),
{
    let mut params: Vec<u8> = Vec::new();
    params.push(address);
    params.push(length);
    proof {
        assert(params@ =~= seq![address, length]);
    }
    build_frame(id, SERVO_CMD_READ, &params)
}

/// Builds the request that reads a whole register of the catalog.
pub fn read_register_request(id: u8, register: ServoRegister) -> (frame: Vec<u8>)
    ensures
        frame@ == spec_frame(
            id,
            SERVO_CMD_READ,
            seq![register.spec_address(), register.spec_width()],
        ),
{
    read_request(id, register.address(), register.width())
}

/// The parameter bytes of a write: the start address followed by the data.
pub open spec fn spec_write_params(address: u8, data: Seq<u8>) -> Seq<u8> {
    seq![address] + data
}

/// Builds the request that writes `data` starting at register address
/// `address` of servo `id`.
pub fn write_request(id: u8, address: u8, data: &Vec<u8>) -> (frame: Vec<u8>)
    requires
        data@.len() <= 252,
    ensures
        frame@ == spec_frame(id, SERVO_CMD_WRITE, spec_write_params(address, data@)),
{
    let mut params: Vec<u8> = Vec::new();
    params.push(address);
    let mut i: usize = 0;
    while i < data.len()
        invariant
            0 <= i <= data@.len() <= 252,
            params@ =~= seq![address] + data@.subrange(0, i as int),
        decreases data@.len() - i,
    {
        params.push(data[i]);
        proof {
            assert(data@.subrange(0, i + 1) =~= data@.subrange(0, i as int).push(data@[i as int]));
        }
        i = i + 1;
    }
    proof {
        assert(data@.subrange(0, data@.len() as int) =~= data@);
        assert(params@ =~= spec_write_params(address, data@));
    }
    build_frame(id, SERVO_CMD_WRITE, &params)
}

/// Builds the deferred-write request: the servo latches the write and applies
/// it when a later action broadcast arrives.
pub fn reg_write_request(id: u8, address: u8, data: &Vec<u8>) -> (frame: Vec<u8>)
    requires
        data@.len() <= 252,
    ensures
        frame@ == spec_frame(id, SERVO_CMD_REG_WRITE, spec_write_params(address, data@)),
{
    let mut params: Vec<u8> = Vec::new();
    params.push(address);
    let mut i: usize = 0;
    while i < data.len()
        invariant
            0 <= i <= data@.len() <= 252,
            params@ =~= seq![address] + data@.subrange(0, i as int),
        decreases data@.len() - i,
    {
        params.push(data[i]);
        proof {
            assert(data@.subrange(0, i + 1) =~= data@.subrange(0, i as int).push(data@[i as int]));
        }
        i = i + 1;
    }
    proof {
        assert(data@.subrange(0, data@.len() as int) =~= data@);
        assert(params@ =~= spec_write_params(address, data@));
    }
    build_frame(id, SERVO_CMD_REG_WRITE, &params)
}

/// Builds the broadcast that applies all latched deferred writes at once.
pub fn action_request() -> (frame: Vec<u8>)
    ensures
        frame@ == spec_frame(SERVO_BROADCAST_ID, SERVO_CMD_ACTION, Seq::<u8>::empty()),
{
    let params: Vec<u8> = Vec::new();
    build_frame(SERVO_BROADCAST_ID, SERVO_CMD_ACTION, &params)
}

/// Builds the factory-reset request for `id`.
pub fn reset_request(id: u8) -> (frame: Vec<u8>)
    ensures
        frame@ == spec_frame(id, SERVO_CMD_RESET, Seq::<u8>::empty()),
{
    let params: Vec<u8> = Vec::new();
    build_frame(id, SERVO_CMD_RESET, &params)
}

/// Builds the read request described by a `ServoCommand`.
pub fn read_command_request(cmd: &ServoCommand) -> (frame: Vec<u8>)
    ensures
        frame@ == spec_frame(cmd.id, SERVO_CMD_READ, seq![cmd.address, cmd.length]),
{
    read_request(cmd.id, cmd.address, cmd.length)
}

/// Builds the write request described by a `ServoCommand`.
pub fn write_command_request(cmd: &ServoCommand) -> (frame: Vec<u8>)
    requires
        cmd.data@.len() <= 252,
    ensures
        frame@ == spec_frame(cmd.id, SERVO_CMD_WRITE, spec_write_params(cmd.address, cmd.data@)),
{
    write_request(cmd.id, cmd.address, &cmd.data)
}

/// The six data bytes of a motion command: target location, running time and
/// running speed, each little endian.
pub open spec fn spec_move_data(position: i16, time: u16, speed: u16) -> Seq<u8> {
    seq![
        spec_lo(position as u16),
        spec_hi(position as u16),
        spec_lo(time),
        spec_hi(time),
        spec_lo(speed),
        spec_hi(speed),
    ]
}

/// Encodes a motion command's data bytes.
pub fn move_data(position: i16, time: u16, speed: u16) -> (data: Vec<u8>)
    ensures
        data@ == spec_move_data(position, time, speed),
{
    let (p0, p1) = i16_le_bytes(position);
    let (t0, t1) = u16_le_bytes(time);
    let (s0, s1) = u16_le_bytes(speed);
    let mut data: Vec<u8> = Vec::new();
    data.push(p0);
    data.push(p1);
    data.push(t0);
    data.push(t1);
    data.push(s0);
    data.push(s1);
    proof {
        assert(data@ =~= spec_move_data(position, time, speed));
    }
    data
}

/// Builds the request that moves servo `id` to `position` over `time`
/// milliseconds at `speed`: one write covering the three registers, to spare
/// bus turnarounds.
pub fn move_request(id: u8, position: i16, time: u16, speed: u16) -> (frame: Vec<u8>)
    ensures
        frame@ == spec_frame(
            id,
            SERVO_CMD_WRITE,
            spec_write_params(SERVO_ADDR_TARGET_POSITION, spec_move_data(position, time, speed)),
        ),
{
    let data = move_data(position, time, speed);
    write_request(id, SERVO_ADDR_TARGET_POSITION, &data)
}

/// The speed word of a continuous-rotation command: the magnitude, with the
/// high bit set for counterclockwise rotation.
pub open spec fn spec_speed_word(speed: u16, counterclockwise: bool) -> u16 {
    if counterclockwise {
        (speed % 0x8000 + 0x8000) as u16
    } else {
        speed
    }
}

/// Encodes a speed magnitude and a direction into the running-speed word.
pub fn speed_word(speed: u16, direction: ServoDirection) -> (w: u16)
    ensures
        w == spec_speed_word(speed, direction == ServoDirection::Counterclockwise),
{
    match direction {
        ServoDirection::Clockwise => speed,
        ServoDirection::Counterclockwise => {
            proof {
                assert(speed | 0x8000 == speed % 0x8000 + 0x8000) by (bit_vector);
            }
            speed | 0x8000
        },
    }
}

/// Number of data bytes each servo entry carries in a synchronized batched
/// write, besides the id byte.
pub open spec fn spec_sync_data_width(only_write_positions: bool) -> int {
    if only_write_positions {
        2
    } else {
        6
    }
}

/// The wire bytes of slot `i` of a batched command: nothing for an unused
/// slot, else the id followed by the position (and, for a full write, the
/// time and the speed).
pub open spec fn spec_sync_entry(cmd: ServoMultipleWriteCommand, i: int) -> Seq<u8> {
    if cmd.ids[i] == 0 {
        Seq::<u8>::empty()
    } else if cmd.only_write_positions {
        seq![
            cmd.ids[i],
            spec_lo(cmd.positions[i] as u16),
            spec_hi(cmd.positions[i] as u16),
        ]
    } else {
        seq![
            cmd.ids[i],
            spec_lo(cmd.positions[i] as u16),
            spec_hi(cmd.positions[i] as u16),
            spec_lo(cmd.times[i]),
            spec_hi(cmd.times[i]),
            spec_lo(cmd.speeds[i]),
            spec_hi(cmd.speeds[i]),
        ]
    }
}

/// The concatenated wire bytes of the first `n` slots of a batched command.
pub open spec fn spec_sync_entries(cmd: ServoMultipleWriteCommand, n: int) -> Seq<u8>
    decreases n,
{
    if n <= 0 {
        Seq::<u8>::empty()
    } else {
        spec_sync_entries(cmd, n - 1) + spec_sync_entry(cmd, n - 1)
    }
}

/// How many of the first `n` slots of a batched command are used
/// (id not 0).
pub open spec fn spec_used_slots(cmd: ServoMultipleWriteCommand, n: int) -> int
    decreases n,
{
    if n <= 0 {
        0
    } else {
        spec_used_slots(cmd, n - 1) + if cmd.ids[n - 1] == 0 { 0int } else { 1int }
    }
}

/// The batched bytes are exactly one fixed-size entry per used slot.
pub proof fn lemma_sync_entries_len(cmd: ServoMultipleWriteCommand, n: int)
    requires
        0 <= n,
    ensures
        spec_sync_entries(cmd, n).len()
            == spec_used_slots(cmd, n) * (1 + spec_sync_data_width(cmd.only_write_positions)),
        0 <= spec_used_slots(cmd, n) <= n,
    decreases n,
{
    if n > 0 {
        lemma_sync_entries_len(cmd, n - 1);
        let w = 1 + spec_sync_data_width(cmd.only_write_positions);
        let u = spec_used_slots(cmd, n - 1);
        assert((u + 1) * w == u * w + w) by (nonlinear_arith);
    }
}

/// The parameter bytes of the synchronized batched write: start address,
/// per-servo data width, then the used entries in slot order.
pub open spec fn spec_sync_payload(cmd: ServoMultipleWriteCommand) -> Seq<u8> {
    seq![
        SERVO_ADDR_TARGET_POSITION,
        spec_sync_data_width(cmd.only_write_positions) as u8,
    ] + spec_sync_entries(cmd, MAX_SERVOS as int)
}

/// Builds the parameter bytes of a synchronized batched write, skipping the
/// unused slots.
pub fn sync_write_payload(cmd: &ServoMultipleWriteCommand) -> (data: Vec<u8>)
    ensures
        data@ == spec_sync_payload(*cmd),
        data@.len() == 2 + spec_used_slots(*cmd, MAX_SERVOS as int)
            * (1 + spec_sync_data_width(cmd.only_write_positions)),
{
    let width: u8 = if cmd.only_write_positions { 2 } else { 6 };
    let mut data: Vec<u8> = Vec::new();
    data.push(SERVO_ADDR_TARGET_POSITION);
    data.push(width);
    let mut i: usize = 0;
    while i < MAX_SERVOS
        invariant
            0 <= i <= MAX_SERVOS,
            width == spec_sync_data_width(cmd.only_write_positions) as u8,
            data@ =~= seq![SERVO_ADDR_TARGET_POSITION, width] + spec_sync_entries(*cmd, i as int),
        decreases MAX_SERVOS - i,
    {
        if cmd.ids[i] != 0 {
            data.push(cmd.ids[i]);
            let (p0, p1) = i16_le_bytes(cmd.positions[i]);
            data.push(p0);
            data.push(p1);
            if !cmd.only_write_positions {
                let (t0, t1) = u16_le_bytes(cmd.times[i]);
                data.push(t0);
                data.push(t1);
                let (s0, s1) = u16_le_bytes(cmd.speeds[i]);
                data.push(s0);
                data.push(s1);
            }
        }
        proof {
            assert(data@ =~= seq![SERVO_ADDR_TARGET_POSITION, width]
                + (spec_sync_entries(*cmd, i as int) + spec_sync_entry(*cmd, i as int)));
        }
        i = i + 1;
    }
    proof {
        lemma_sync_entries_len(*cmd, MAX_SERVOS as int);
    }
    data
}

/// Builds the broadcast frame of a synchronized batched write. No response
/// frame follows a broadcast: waiting for one would collide on the
/// half-duplex bus.
pub fn sync_write_request(cmd: &ServoMultipleWriteCommand) -> (frame: Vec<u8>)
    ensures
        frame@ == spec_frame(SERVO_BROADCAST_ID, SERVO_CMD_SYNC_WRITE, spec_sync_payload(*cmd)),
{
    let data = sync_write_payload(cmd);
    proof {
        lemma_sync_entries_len(*cmd, MAX_SERVOS as int);
        let w = 1 + spec_sync_data_width(cmd.only_write_positions);
        let u = spec_used_slots(*cmd, MAX_SERVOS as int);
        assert(u * w <= 16 * 8) by (nonlinear_arith)
            requires
                0 <= u <= 16,
                0 < w <= 8,
        ;
    }
    build_frame(SERVO_BROADCAST_ID, SERVO_CMD_SYNC_WRITE, &data)
}

/// The wire bytes of the first `n` (id, position) pairs of a plain batched
/// position write: every pair goes on the wire, three bytes each.
pub open spec fn spec_move_multiple_entries(ids: Seq<u8>, positions: Seq<i16>, n: int) -> Seq<u8>
    decreases n,
{
    if n <= 0 {
        Seq::<u8>::empty()
    } else {
        spec_move_multiple_entries(ids, positions, n - 1) + seq![
            ids[n - 1],
            spec_lo(positions[n - 1] as u16),
            spec_hi(positions[n - 1] as u16),
        ]
    }
}

/// Builds the broadcast frame that moves several servos at once, positions
/// only, from parallel id and position lists. Mismatched lists are a caller
/// error, and more servos than a frame can carry are refused.
pub fn move_multiple_request(ids: &Vec<u8>, positions: &Vec<i16>) -> (r: Result<Vec<u8>, BusError>)
    ensures
        r is Ok <==> ids@.len() == positions@.len() && ids@.len() <= 83,
        r matches Ok(frame) ==> frame@ == spec_frame(
            SERVO_BROADCAST_ID,
            SERVO_CMD_SYNC_WRITE,
            seq![SERVO_ADDR_TARGET_POSITION, 2u8]
                + spec_move_multiple_entries(ids@, positions@, ids@.len() as int),
        ),
{
    if ids.len() != positions.len() || ids.len() > 83 {
        return Err(BusError::LengthMismatch);
    }
    let mut data: Vec<u8> = Vec::new();
    data.push(SERVO_ADDR_TARGET_POSITION);
    data.push(2);
    let mut i: usize = 0;
    while i < ids.len()
        invariant
            0 <= i <= ids@.len() <= 83,
            ids@.len() == positions@.len(),
            data@ =~= seq![SERVO_ADDR_TARGET_POSITION, 2u8]
                + spec_move_multiple_entries(ids@, positions@, i as int),
            data@.len() == 2 + 3 * i,
        decreases ids@.len() - i,
    {
        data.push(ids[i]);
        let (p0, p1) = i16_le_bytes(positions[i]);
        data.push(p0);
        data.push(p1);
        proof {
            assert(data@ =~= seq![SERVO_ADDR_TARGET_POSITION, 2u8]
                + (spec_move_multiple_entries(ids@, positions@, i as int)
                    + seq![ids@[i as int], p0, p1]));
        }
        i = i + 1;
    }
    Ok(build_frame(SERVO_BROADCAST_ID, SERVO_CMD_SYNC_WRITE, &data))
}

/// Builds the request that writes a 16-bit value into a register, little
/// endian, or its low byte alone into a one-byte register.
pub fn write_servo_memory_request(id: u8, register: ServoRegister, value: u16) -> (frame: Vec<u8>)
    ensures
        frame@ == spec_frame(
            id,
            SERVO_CMD_WRITE,
            spec_write_params(
                register.spec_address(),
                crate::eeprom::spec_register_bytes(register, value),
            ),
        ),
{
    let data = crate::eeprom::register_bytes(register, value);
    write_request(id, register.address(), &data)
}

/// Decodes the two-byte reads of the minimum and maximum angle limit
/// registers into the pair of limits.
pub fn decode_angle_limits(min_data: &Vec<u8>, max_data: &Vec<u8>)
    -> (r: Result<(i16, i16), BusError>)
    ensures
        r is Ok <==> min_data@.len() == 2 && max_data@.len() == 2,
        r matches Ok(v) ==> v.0 as int == spec_i16_le(min_data@[0], min_data@[1])
            && v.1 as int == spec_i16_le(max_data@[0], max_data@[1]),
{
    let min_limit = decode_i16(min_data)?;
    let max_limit = decode_i16(max_data)?;
    Ok((min_limit, max_limit))
}

/// What validating a response frame against the servo that was addressed
/// yields: the parameter bytes, or nothing if the frame is malformed, from
/// another servo, or carries a non-zero status.
pub open spec fn spec_response_params(s: Seq<u8>, expected_id: u8) -> Option<Seq<u8>> {
    match spec_parse(s) {
        None => None,
        Some((id, status, params)) => {
            if id != expected_id {
                None
            } else if status != 0 {
                None
            } else {
                Some(params)
            }
        },
    }
}

/// Validates a response frame: well-formed, from the servo that was
/// addressed, and with a zero status byte. Returns its parameter bytes.
pub fn parse_response(frame: &Vec<u8>, expected_id: u8) -> (r: Result<Vec<u8>, BusError>)
    requires
        frame@.len() <= 300,
    ensures
        r is Ok <==> spec_response_params(frame@, expected_id) is Some,
        r matches Ok(params) ==> spec_response_params(frame@, expected_id) == Some(params@),
        r matches Err(e) ==> (match e {
            BusError::IdMismatch => spec_parse(frame@) matches Some((id, _, _)) && id != expected_id,
            BusError::ErrorStatus => spec_parse(frame@) matches Some((id, status, _))
                && id == expected_id && status != 0,
            _ => spec_parse(frame@) is None,
        }),
{
    match parse_frame(frame) {
        Err(e) => Err(e),
        Ok(parsed) => {
            if parsed.id != expected_id {
                Err(BusError::IdMismatch)
            } else if parsed.code != 0 {
                Err(BusError::ErrorStatus)
            } else {
                Ok(parsed.params)
            }
        },
    }
}

/// Validates the status response to a write-class request: well-formed, from
/// the right servo, zero status, no parameter bytes expected.
pub fn parse_status_response(frame: &Vec<u8>, expected_id: u8) -> (r: Result<(), BusError>)
    requires
        frame@.len() <= 300,
    ensures
        r is Ok <==> spec_response_params(frame@, expected_id) is Some,
{
    match parse_response(frame, expected_id) {
        Ok(_) => Ok(()),
        Err(e) => Err(e),
    }
}

/// The scan decision: a servo is present at `id` exactly when the read of
/// its id register came back and echoed one byte equal to `id`. A failed
/// exchange means absence, never an error.
pub fn scan_decision(id: u8, read_result: &Option<Vec<u8>>) -> (present: bool)
    ensures
        present <==> (read_result matches Some(data)
            && data@.len() == 1 && data@[0] == id),
{
    match read_result {
        Some(data) => data.len() == 1 && data[0] == id,
        None => false,
    }
}

/// Decodes a one-byte register read.
pub fn decode_byte(data: &Vec<u8>) -> (r: Result<u8, BusError>)
    ensures
        r is Ok <==> data@.len() == 1,
        r matches Ok(v) ==> v == data@[0],
{
    if data.len() == 1 {
        Ok(data[0])
    } else {
        Err(BusError::LengthMismatch)
    }
}

/// Decodes a two-byte signed register read (a position, a speed, a load).
pub fn decode_i16(data: &Vec<u8>) -> (r: Result<i16, BusError>)
    ensures
        r is Ok <==> data@.len() == 2,
        r matches Ok(v) ==> v as int == spec_i16_le(data@[0], data@[1]),
{
    if data.len() == 2 {
        Ok(i16_from_le(data[0], data[1]))
    } else {
        Err(BusError::LengthMismatch)
    }
}

/// Decodes a two-byte unsigned register read (a current, a torque limit).
pub fn decode_u16(data: &Vec<u8>) -> (r: Result<u16, BusError>)
    ensures
        r is Ok <==> data@.len() == 2,
        r matches Ok(v) ==> v == spec_u16_le(data@[0], data@[1]),
{
    if data.len() == 2 {
        Ok(u16_from_le(data[0], data[1]))
    } else {
        Err(BusError::LengthMismatch)
    }
}

/// Decodes the six-byte read of current location, current speed and current
/// load, which sit in consecutive registers.
pub fn decode_position_and_status(data: &Vec<u8>) -> (r: Result<(i16, i16, i16), BusError>)
    ensures
        r is Ok <==> data@.len() == 6,
        r matches Ok(v) ==> {
            &&& v.0 as int == spec_i16_le(data@[0], data@[1])
            &&& v.1 as int == spec_i16_le(data@[2], data@[3])
            &&& v.2 as int == spec_i16_le(data@[4], data@[5])
        },
{
    if data.len() == 6 {
        let location = i16_from_le(data[0], data[1]);
        let speed = i16_from_le(data[2], data[3]);
        let load = i16_from_le(data[4], data[5]);
        Ok((location, speed, load))
    } else {
        Err(BusError::LengthMismatch)
    }
}

} // verus!
