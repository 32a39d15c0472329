//! The turn controller: pointer motion into a yaw rate command.
//!
//! All pointer-motion samples delivered since the previous step are drained
//! and summed into one delta, negated — inverted look is the stock
//! convention — and the horizontal share, held to `[-TURN_CLAMP,
//! TURN_CLAMP]`, becomes this step's yaw angular velocity. The command is
//! overwritten, never accumulated: with no pointer motion the yaw rate
//! snaps back to zero.

use crate::math::{clamp, spec_clamp};
use vstd::prelude::*;

verus! {

/// Greatest yaw rate magnitude, in subunits: ten units per second.
pub const TURN_CLAMP: i64 = 10_000;

/// Greatest magnitude of one pointer-motion sample, in subunits.
pub const MAX_POINTER_DELTA: i64 = 1_000_000_000;

/// One pointer-motion sample, in subunits of screen travel.
#[derive(Clone, Copy, Debug, PartialEq, Eq, Structural)]
pub struct PointerDelta {
    pub x: i64,
    pub y: i64,
}

/// Sum of the horizontal components of the samples.
pub open spec fn spec_delta_sum(s: Seq<PointerDelta>) -> int
    decreases s.len(),
{
    if s.len() == 0 {
        0
    } else {
        spec_delta_sum(s.drop_last()) + s.last().x
    }
}

/// The yaw rate the samples command: the negated horizontal sum, clamped.
pub open spec fn spec_turn_command(s: Seq<PointerDelta>) -> int {
    spec_clamp(-spec_delta_sum(s), -TURN_CLAMP as int, TURN_CLAMP as int)
}

/// Drains this step's pointer samples into a clamped yaw rate command.
pub fn input_to_turning(deltas: &Vec<PointerDelta>) -> (yaw: i64)
    requires
        deltas@.len() <= 1_000_000,
        forall|i: int|
            0 <= i < deltas@.len() ==> -MAX_POINTER_DELTA <= #[trigger] deltas@[i].x
                <= MAX_POINTER_DELTA,
    ensures
        yaw == spec_turn_command(deltas@),
        -TURN_CLAMP <= yaw <= TURN_CLAMP,
{
    let n = deltas.len();
    let mut acc: i64 = 0;
    let mut i: usize = 0;
    while i < n
        invariant
            n == deltas@.len(),
            n <= 1_000_000,
            i <= n,
            forall|j: int|
                0 <= j < n ==> -MAX_POINTER_DELTA <= #[trigger] deltas@[j].x <= MAX_POINTER_DELTA,
            acc == -spec_delta_sum(deltas@.subrange(0, i as int)),
            -1_000_000_000 * i <= acc <= 1_000_000_000 * i,
        decreases n - i,
    {
        proof {
            let pre = deltas@.subrange(0, i as int);
            let post = deltas@.subrange(0, i + 1);
            assert(post.drop_last() =~= pre);
            assert(post.last() == deltas@[i as int]);
        }
        acc = acc - deltas[i].x;
        i = i + 1;
    }
    proof {
        assert(deltas@.subrange(0, n as int) =~= deltas@);
    }
    clamp(acc, -TURN_CLAMP, TURN_CLAMP)
}

} // verus!
