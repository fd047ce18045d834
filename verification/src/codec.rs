//! Wire-level frame codec. A request or response packet is
//! `[0xFF, 0xFF, id, len, code, params..., checksum]` where `len` counts the
//! code byte, the parameter bytes and the checksum byte, and the checksum is
//! the bitwise complement of the low byte of the sum of everything between
//! the start bytes and the checksum itself. The codec is pure byte framing:
//! it never interprets register semantics.

use vstd::prelude::*;
use vstd::arithmetic::div_mod::lemma_fundamental_div_mod;

verus! {

/// First of the two start bytes that open every frame.
pub const SERVO_START_BYTE: u8 = 0xFF;

/// Command byte: ping.
pub const SERVO_CMD_PING: u8 = 0x01;
/// Command byte: read a register range.
pub const SERVO_CMD_READ: u8 = 0x02;
/// Command byte: write a register range.
pub const SERVO_CMD_WRITE: u8 = 0x03;
/// Command byte: deferred write, applied by a later action broadcast.
pub const SERVO_CMD_REG_WRITE: u8 = 0x04;
/// Command byte: apply deferred writes.
pub const SERVO_CMD_ACTION: u8 = 0x05;
/// Command byte: factory reset.
pub const SERVO_CMD_RESET: u8 = 0x06;
/// Command byte: broadcast batched write.
pub const SERVO_CMD_SYNC_WRITE: u8 = 0x83;

/// Sum of the bytes of `s` as a mathematical integer.
pub open spec fn byte_sum(s: Seq<u8>) -> int
    decreases s.len(),
{
    if s.len() == 0 {
        0
    } else {
        s[0] + byte_sum(s.drop_first())
    }
}

/// The checksum byte for the summed region `s` (everything between the start
/// bytes and the checksum): the bitwise complement of the low byte of the sum.
pub open spec fn spec_checksum(s: Seq<u8>) -> u8 {
    (255 - byte_sum(s) % 256) as u8
}

/// The complete frame carrying `code` to address `id` with `params`.
pub open spec fn spec_frame(id: u8, code: u8, params: Seq<u8>) -> Seq<u8> {
    let body = seq![id, (params.len() + 2) as u8, code] + params;
    seq![SERVO_START_BYTE, SERVO_START_BYTE] + body + seq![spec_checksum(body)]
}

proof fn lemma_byte_sum_nonneg(s: Seq<u8>)
    ensures
        0 <= byte_sum(s) <= 255 * s.len(),
    decreases s.len(),
{
    if s.len() > 0 {
        lemma_byte_sum_nonneg(s.drop_first());
    }
}

proof fn lemma_byte_sum_snoc(s: Seq<u8>, x: u8)
    ensures
        byte_sum(s.push(x)) == byte_sum(s) + x,
    decreases s.len(),
{
    if s.len() == 0 {
        assert(s.push(x) =~= seq![x]);
        assert(byte_sum(seq![x]) == x + byte_sum(seq![x].drop_first()));
        assert(seq![x].drop_first() =~= Seq::<u8>::empty());
    } else {
        assert(s.push(x).drop_first() =~= s.drop_first().push(x));
        lemma_byte_sum_snoc(s.drop_first(), x);
    }
}

/// Replacing one byte shifts the sum by exactly the difference.
proof fn lemma_byte_sum_update(s: Seq<u8>, j: int, b: u8)
    requires
        0 <= j < s.len(),
    ensures
        byte_sum(s.update(j, b)) == byte_sum(s) - s[j] + b,
    decreases s.len(),
{
    if j == 0 {
        assert(s.update(0, b).drop_first() =~= s.drop_first());
    } else {
        assert(s.update(j, b).drop_first() =~= s.drop_first().update(j - 1, b));
        lemma_byte_sum_update(s.drop_first(), j - 1, b);
    }
}

/// Two regions whose sums differ by something that is not a multiple of 256
/// have different checksums.
proof fn lemma_checksum_differs(r1: Seq<u8>, r2: Seq<u8>)
    requires
        byte_sum(r1) != byte_sum(r2),
        -255 <= byte_sum(r1) - byte_sum(r2) <= 255,
    ensures
        spec_checksum(r1) != spec_checksum(r2),
{
    let s1 = byte_sum(r1);
    let s2 = byte_sum(r2);
    lemma_fundamental_div_mod(s1, 256);
    lemma_fundamental_div_mod(s2, 256);
    if s1 % 256 == s2 % 256 {
        assert(s1 - s2 == 256 * (s1 / 256) - 256 * (s2 / 256));
        assert(s1 - s2 == 256 * ((s1 / 256) - (s2 / 256)));
        let k = (s1 / 256) - (s2 / 256);
        assert(256 * k == s1 - s2);
        assert(-255 <= 256 * k <= 255);
        assert(k == 0) by (nonlinear_arith)
            requires
                -255 <= 256 * k <= 255,
        ;
        assert(s1 == s2);
    }
}

/// Typed failure of a bus exchange.
#[derive(Clone, Copy, Debug, PartialEq, Eq, Structural)]
pub enum BusError {
    /// The frame is shorter than the minimal frame.
    FrameTooShort,
    /// The two start bytes are missing.
    BadHeader,
    /// The length byte does not match the frame length.
    LengthMismatch,
    /// The checksum byte does not match the frame contents.
    ChecksumMismatch,
    /// The responder is not the servo that was addressed.
    IdMismatch,
    /// The servo answered with a non-zero status byte.
    ErrorStatus,
}

/// A validated frame: source or target address, command or status code, and
/// the parameter bytes.
#[derive(Debug, PartialEq, Eq)]
pub struct ParsedFrame {
    pub id: u8,
    pub code: u8,
    pub params: Vec<u8>,
}

/// What a well-formed frame parses to: the address, the code byte and the
/// parameter bytes, or nothing if any validation fails.
pub open spec fn spec_parse(s: Seq<u8>) -> Option<(u8, u8, Seq<u8>)> {
    if s.len() < 6 {
        None
    } else if s[0] != SERVO_START_BYTE || s[1] != SERVO_START_BYTE {
        None
    } else if s.len() != s[3] + 4 {
        None
    } else if s[s.len() - 1] != spec_checksum(s.subrange(2, s.len() - 1)) {
        None
    } else {
        Some((s[2], s[4], s.subrange(5, s.len() - 1)))
    }
}

/// Computes the checksum byte over `frame[2 .. end]`.
fn checksum_range(frame: &Vec<u8>, end: usize) -> (c: u8)
    requires
        2 <= end <= frame@.len() <= 300,
    ensures
        c == spec_checksum(frame@.subrange(2, end as int)),
{
    let mut acc: u32 = 0;
    let mut i: usize = 2;
    proof {
        assert(frame@.subrange(2, 2) =~= Seq::<u8>::empty());
    }
    while i < end
        invariant
            2 <= i <= end,
            2 <= end <= frame@.len() <= 300,
            acc == byte_sum(frame@.subrange(2, i as int)),
            acc <= 255 * (i - 2),
        decreases end - i,
    {
        proof {
            assert(frame@.subrange(2, i + 1) =~= frame@.subrange(2, i as int).push(frame@[i as int]));
            lemma_byte_sum_snoc(frame@.subrange(2, i as int), frame@[i as int]);
        }
        acc = acc + frame[i] as u32;
        i = i + 1;
    }
    proof {
        lemma_byte_sum_nonneg(frame@.subrange(2, end as int));
    }
    255 - (acc % 256) as u8
}

/// Computes the checksum byte of a complete frame, over everything between
/// the start bytes and the checksum byte itself.
pub fn checksum(frame: &Vec<u8>) -> (c: u8)
    requires
        3 <= frame@.len() <= 300,
    ensures
        c == spec_checksum(frame@.subrange(2, frame@.len() - 1)),
{
    checksum_range(frame, frame.len() - 1)
}

/// Builds the request frame carrying `code` to address `id` with parameter
/// bytes `params`.
pub fn build_frame(id: u8, code: u8, params: &Vec<u8>) -> (frame: Vec<u8>)
    requires
        params@.len() + 2 <= 255,
    ensures
        frame@ == spec_frame(id, code, params@),
        frame@.len() == params@.len() + 6,
{
    let mut frame: Vec<u8> = Vec::new();
    frame.push(SERVO_START_BYTE);
    frame.push(SERVO_START_BYTE);
    frame.push(id);
    frame.push((params.len() + 2) as u8);
    frame.push(code);
    let mut i: usize = 0;
    while i < params.len()
        invariant
            0 <= i <= params@.len(),
            params@.len() + 2 <= 255,
            frame@ =~= seq![SERVO_START_BYTE, SERVO_START_BYTE, id, (params@.len() + 2) as u8, code]
                + params@.subrange(0, i as int),
        decreases params@.len() - i,
    {
        frame.push(params[i]);
        proof {
            assert(params@.subrange(0, i + 1) =~= params@.subrange(0, i as int).push(params@[i as int]));
        }
        i = i + 1;
    }
    proof {
        assert(params@.subrange(0, params@.len() as int) =~= params@);
    }
    let c = checksum_range(&frame, frame.len());
    proof {
        let body = seq![id, (params@.len() + 2) as u8, code] + params@;
        assert(frame@.subrange(2, frame@.len() as int) =~= body);
    }
    frame.push(c);
    proof {
        let body = seq![id, (params@.len() + 2) as u8, code] + params@;
        assert(frame@ =~= seq![SERVO_START_BYTE, SERVO_START_BYTE] + body + seq![spec_checksum(body)]);
    }
    frame
}

/// Validates a frame (start bytes, length byte, checksum) and takes it apart
/// into address, code byte and parameter bytes.
pub fn parse_frame(frame: &Vec<u8>) -> (r: Result<ParsedFrame, BusError>)
    requires
        frame@.len() <= 300,
    ensures
        r is Ok <==> spec_parse(frame@) is Some,
        r matches Ok(p) ==> spec_parse(frame@) == Some((p.id, p.code, p.params@)),
        r matches Err(e) ==> match e {
            BusError::FrameTooShort => frame@.len() < 6,
            BusError::BadHeader => frame@.len() >= 6
                && (frame@[0] != SERVO_START_BYTE || frame@[1] != SERVO_START_BYTE),
            BusError::LengthMismatch => frame@.len() >= 6 && frame@.len() != frame@[3] + 4,
            BusError::ChecksumMismatch => frame@.len() >= 6
                && frame@[frame@.len() - 1] != spec_checksum(frame@.subrange(2, frame@.len() - 1)),
            _ => false,
        },
{
    if frame.len() < 6 {
        return Err(BusError::FrameTooShort);
    }
    if frame[0] != SERVO_START_BYTE || frame[1] != SERVO_START_BYTE {
        return Err(BusError::BadHeader);
    }
    if frame.len() != frame[3] as usize + 4 {
        return Err(BusError::LengthMismatch);
    }
    let c = checksum(frame);
    if frame[frame.len() - 1] != c {
        return Err(BusError::ChecksumMismatch);
    }
    let mut params: Vec<u8> = Vec::new();
    let end: usize = frame.len() - 1;
    let mut i: usize = 5;
    proof {
        assert(frame@.subrange(5, 5) =~= Seq::<u8>::empty());
    }
    while i < end
        invariant
            5 <= i <= end,
            end == frame@.len() - 1,
            6 <= frame@.len() <= 300,
            params@ =~= frame@.subrange(5, i as int),
        decreases end - i,
    {
        params.push(frame[i]);
        proof {
            assert(frame@.subrange(5, i + 1) =~= frame@.subrange(5, i as int).push(frame@[i as int]));
        }
        i = i + 1;
    }
    Ok(ParsedFrame { id: frame[2], code: frame[4], params })
}

/// Parsing a built frame returns exactly the address, the code and the
/// parameters it was built from.
pub proof fn lemma_build_parse_round_trip(id: u8, code: u8, params: Seq<u8>)
    requires
        params.len() + 2 <= 255,
    ensures
        spec_parse(spec_frame(id, code, params)) == Some((id, code, params)),
{
    let body = seq![id, (params.len() + 2) as u8, code] + params;
    let s = spec_frame(id, code, params);
    assert(s.len() == params.len() + 6);
    assert(s[3] == (params.len() + 2) as u8);
    assert(s.len() == s[3] + 4);
    assert(s.subrange(2, s.len() - 1) =~= body);
    assert(s[s.len() - 1] == spec_checksum(body));
    assert(s.subrange(5, s.len() - 1) =~= params);
}

/// Corrupting any single byte of a built frame makes parsing fail: the start
/// bytes, the length byte and the checksum together cover the whole frame.
pub proof fn lemma_flip_rejected(id: u8, code: u8, params: Seq<u8>, i: int, b: u8)
    requires
        params.len() + 2 <= 255,
        0 <= i < spec_frame(id, code, params).len(),
        b != spec_frame(id, code, params)[i],
    ensures
        spec_parse(spec_frame(id, code, params).update(i, b)) is None,
{
    let body = seq![id, (params.len() + 2) as u8, code] + params;
    let s = spec_frame(id, code, params);
    let t = s.update(i, b);
    assert(s.len() == params.len() + 6);
    assert(s.subrange(2, s.len() - 1) =~= body);
    assert(t.len() == s.len());
    if i == 0 || i == 1 {
        assert(t[i] != SERVO_START_BYTE);
    } else if i == 3 {
        // The frame length stayed the same, so a changed length byte can no
        // longer match it.
        assert(t[3] == b && b != s[3]);
        assert(s.len() == s[3] + 4);
        assert(t.len() != t[3] + 4);
    } else if i == s.len() - 1 {
        // The summed region is untouched, so the stored checksum is now wrong.
        assert(t.subrange(2, t.len() - 1) =~= body);
        assert(t[t.len() - 1] == b && b != spec_checksum(body));
        assert(t.len() >= 6 && t[0] == SERVO_START_BYTE && t[1] == SERVO_START_BYTE);
        assert(t.len() == t[3] + 4);
    } else {
        // A byte inside the summed region changed: the sum moves by a nonzero
        // amount smaller than 256, so the checksum no longer matches.
        assert(2 <= i < s.len() - 1);
        let region = t.subrange(2, t.len() - 1);
        assert(region =~= body.update(i - 2, b));
        lemma_byte_sum_update(body, i - 2, b);
        assert(body[i - 2] == s[i]);
        lemma_checksum_differs(region, body);
        assert(t[t.len() - 1] == s[s.len() - 1]);
        assert(s[s.len() - 1] == spec_checksum(body));
        assert(t[t.len() - 1] != spec_checksum(region));
        if t.len() < 6 {
        } else {
            assert(t[3] == s[3]);
            assert(t.len() == t[3] + 4);
        }
    }
}

} // verus!
