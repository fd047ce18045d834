//! Conversion between joint angles and raw encoder ticks. The encoder is
//! circular with 4096 ticks per revolution, so one tick is 360/4096 of a
//! degree. Angles are carried as centidegrees (hundredths of a degree), so
//! the full range -180°..180° is -18000..18000; one tick is about 8.79
//! centidegrees.

use vstd::prelude::*;
use vstd::arithmetic::div_mod::lemma_fundamental_div_mod;
use vstd::arithmetic::div_mod::lemma_div_is_ordered;

verus! {

/// Clamps `value` into `[min, max]`.
pub fn clamp(value: u16, min: u16, max: u16) -> (r: u16)
    requires
        min <= max,
    ensures
        r == if value < min { min } else if value > max { max } else { value },
        min <= r <= max,
{
    if value < min {
        min
    } else if value > max {
        max
    } else {
        value
    }
}

/// An angle clamped into the representable range of -180°..180°.
pub open spec fn spec_clamp_angle(centidegrees: int) -> int {
    if centidegrees < -18000 {
        -18000
    } else if centidegrees > 18000 {
        18000
    } else {
        centidegrees
    }
}

/// The raw tick value of an angle: the angle is clamped, shifted so that
/// -180° maps to tick 0, scaled by 4096 ticks per 360°, rounded to the
/// nearest tick, and capped at the top tick 4095.
pub open spec fn spec_degrees_to_raw(centidegrees: int) -> int {
    let q = ((spec_clamp_angle(centidegrees) + 18000) * 4096 + 18000) / 36000;
    if q > 4095 {
        4095
    } else {
        q
    }
}

/// The angle of a raw tick value: the tick is capped at 4095, scaled by 360°
/// per 4096 ticks, rounded to the nearest centidegree, and shifted so that
/// tick 0 maps to -180°.
pub open spec fn spec_raw_to_degrees(raw: int) -> int {
    let c = if raw > 4095 { 4095 } else { raw };
    (c * 36000 + 2048) / 4096 - 18000
}

/// Converts an angle in centidegrees to a raw tick value in 0..=4095,
/// clamping angles outside -180°..180°.
pub fn degrees_to_raw(centidegrees: i32) -> (raw: u16)
    ensures
        raw == spec_degrees_to_raw(centidegrees as int),
        raw <= 4095,
{
    let clamped: i32 = if centidegrees < -18000 {
        -18000
    } else if centidegrees > 18000 {
        18000
    } else {
        centidegrees
    };
    let scaled: u32 = ((clamped + 18000) as u32 * 4096 + 18000) / 36000;
    if scaled > 4095 {
        4095
    } else {
        scaled as u16
    }
}

/// Converts a raw tick value to an angle in centidegrees in -18000..=17991,
/// capping ticks above 4095.
pub fn raw_to_degrees(raw: u16) -> (centidegrees: i32)
    ensures
        centidegrees == spec_raw_to_degrees(raw as int),
        -18000 <= centidegrees <= 17991,
{
    let capped: u32 = if raw > 4095 { 4095 } else { raw as u32 };
    let scaled: u32 = (capped * 36000 + 2048) / 4096;
    proof {
        lemma_div_is_ordered(capped * 36000 + 2048, 147422048int, 4096);
    }
    scaled as i32 - 18000
}

/// Converting an angle to ticks and back lands within one tick (about 0.088°,
/// 9 centidegrees) of the starting angle, over the whole representable range.
pub proof fn lemma_angle_round_trip(centidegrees: int)
    requires
        -18000 <= centidegrees <= 18000,
    ensures
        -9 <= spec_raw_to_degrees(spec_degrees_to_raw(centidegrees)) - centidegrees <= 9,
{
    let c = centidegrees;
    let a = (c + 18000) * 4096 + 18000;
    let q = a / 36000;
    lemma_fundamental_div_mod(a, 36000);
    let r1 = a % 36000;
    assert(a == 36000 * q + r1);
    let raw = spec_degrees_to_raw(c);
    let b = raw * 36000 + 2048;
    let d = b / 4096;
    lemma_fundamental_div_mod(b, 4096);
    let r2 = b % 4096;
    assert(b == 4096 * d + r2);
    if q <= 4095 {
        assert(raw == q);
        // 4096 * (d - c - 18000) == 20048 - r1 - r2, which is strictly
        // between -36048 and 20048, so the difference is within 4.
        assert(4096 * (d - (c + 18000)) == 20048 - r1 - r2);
        assert(-36048 < 20048 - r1 - r2 <= 20048);
        let k = d - (c + 18000);
        assert(-36048 < 4096 * k <= 20048);
        assert(-9 <= k <= 4) by (nonlinear_arith)
            requires
                -36048 < 4096 * k <= 20048,
        ;
    } else {
        // Only angles in the top few centidegrees round up past the top
        // tick; they cap at 4095, which reads back as 17991.
        assert(raw == 4095);
        assert(36000 * q <= a);
        assert(36000 * 4096 <= 36000 * q) by (nonlinear_arith)
            requires
                q >= 4096,
        ;
        assert(c + 18000 >= 35996);
        assert(b == 4095 * 36000 + 2048);
        assert(4096 * d == 147422048 - r2);
        assert(d == 35991);
    }
}

/// Angle-to-tick conversion clamps: every angle outside -180°..180° maps to
/// the same tick as the nearer bound.
pub proof fn lemma_degrees_to_raw_clamps(centidegrees: int)
    ensures
        centidegrees < -18000 ==> spec_degrees_to_raw(centidegrees) == spec_degrees_to_raw(-18000),
        centidegrees > 18000 ==> spec_degrees_to_raw(centidegrees) == spec_degrees_to_raw(18000),
{
}

/// Angle-to-tick conversion is monotonic: a larger angle never maps to a
/// smaller tick.
pub proof fn lemma_degrees_to_raw_monotonic(cd1: int, cd2: int)
    requires
        cd1 <= cd2,
    ensures
        spec_degrees_to_raw(cd1) <= spec_degrees_to_raw(cd2),
{
    let c1 = spec_clamp_angle(cd1);
    let c2 = spec_clamp_angle(cd2);
    assert(c1 <= c2);
    lemma_div_is_ordered((c1 + 18000) * 4096 + 18000, (c2 + 18000) * 4096 + 18000, 36000);
}

} // verus!
