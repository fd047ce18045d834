//! Replayed motion-capture frames: a captured frame names servo slots by
//! their one-based bus id and gives each a target position. Turning a frame
//! into the per-slot position table is the part of replay that is worth
//! stating exactly; reading and decoding capture files stays with the
//! caller.

use vstd::prelude::*;
use crate::MAX_SERVOS;

verus! {

/// The position table that a frame's entries build up: slots start at zero,
/// an entry with a one-based id inside the table writes its slot, any other
/// entry is ignored, and a later entry for the same slot wins.
pub open spec fn spec_frame_positions(entries: Seq<(usize, i32)>) -> Seq<i32>
    decreases entries.len(),
{
    if entries.len() == 0 {
        Seq::new(MAX_SERVOS as nat, |i: int| 0i32)
    } else {
        let prev = spec_frame_positions(entries.drop_last());
        let last = entries.last();
        if 1 <= last.0 <= MAX_SERVOS {
            prev.update(last.0 - 1, last.1)
        } else {
            prev
        }
    }
}

/// Builds the per-slot position table of one captured frame from its
/// (servo id, position) entries.
pub fn frame_to_positions(entries: &Vec<(usize, i32)>) -> (positions: Vec<i32>)
    ensures
        positions@ == spec_frame_positions(entries@),
        positions@.len() == MAX_SERVOS,
{
    let mut positions: Vec<i32> = Vec::new();
    let mut i: usize = 0;
    while i < MAX_SERVOS
        invariant
            0 <= i <= MAX_SERVOS,
            positions@.len() == i,
            forall|j: int| 0 <= j < i ==> positions@[j] == 0i32,
        decreases MAX_SERVOS - i,
    {
        positions.push(0);
        i = i + 1;
    }
    proof {
        assert(positions@ =~= spec_frame_positions(entries@.subrange(0, 0)));
    }
    let mut k: usize = 0;
    while k < entries.len()
        invariant
            0 <= k <= entries@.len(),
            positions@ =~= spec_frame_positions(entries@.subrange(0, k as int)),
            positions@.len() == MAX_SERVOS,
        decreases entries@.len() - k,
    {
        let (index, value) = entries[k];
        if index >= 1 && index <= MAX_SERVOS {
            positions.set(index - 1, value);
        }
        proof {
            let sub = entries@.subrange(0, k + 1);
            assert(sub.drop_last() =~= entries@.subrange(0, k as int));
            assert(sub.last() == entries@[k as int]);
        }
        k = k + 1;
    }
    proof {
        assert(entries@.subrange(0, entries@.len() as int) =~= entries@);
    }
    positions
}

} // verus!
