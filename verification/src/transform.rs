//! The body pose the controller reads.
//!
//! The physics integrator owns the pose; the controller only reads it. With
//! roll and pitch locked, a pose is a translation plus a yawed orthonormal
//! basis: `forward` (the local minus-Z axis) and `local_x` (the local X
//! axis), both horizontal unit vectors, with the local Y axis fixed to world
//! up. Well-formedness pins exactly that down, so every consumer may count
//! on a unit, horizontal, orthogonal basis.

use crate::math::{lemma_scale_squared, Vec3, MAX_COORD, SCALE};
use vstd::prelude::*;

verus! {

/// Position and yaw basis of a controlled body.
#[derive(Clone, Copy, Debug, PartialEq, Eq, Structural)]
pub struct Transform {
    pub translation: Vec3,
    pub forward: Vec3,
    pub local_x: Vec3,
}

impl Transform {
    /// A valid pose: bounded position; unit, horizontal, orthogonal basis.
    pub open spec fn wf(self) -> bool {
        &&& self.translation.bounded(MAX_COORD as int)
        &&& self.forward.y == 0
        &&& self.local_x.y == 0
        &&& self.forward.len2() == SCALE * SCALE
        &&& self.local_x.len2() == SCALE * SCALE
        &&& self.forward.dot(self.local_x) == 0
    }

    /// Checks the pose invariant at construction; `None` on a translation
    /// out of range or a basis that is not a horizontal orthonormal pair.
    pub fn new(translation: Vec3, forward: Vec3, local_x: Vec3) -> (r: Option<Transform>)
        ensures
            r matches Some(t) ==> t == (Transform { translation, forward, local_x }) && t.wf(),
            r is None ==> !(Transform { translation, forward, local_x }).wf(),
    {
        let t = Transform { translation, forward, local_x };
        if !in_coord_range(translation) {
            return None;
        }
        if !is_horizontal_unit(forward) {
            return None;
        }
        if !is_horizontal_unit(local_x) {
            return None;
        }
        proof {
            lemma_unit_component_bounds(forward);
            lemma_unit_component_bounds(local_x);
            assert(-(SCALE * SCALE) <= forward.x * local_x.x <= SCALE * SCALE
                && -(SCALE * SCALE) <= forward.z * local_x.z <= SCALE * SCALE
                && forward.y * local_x.y == 0) by (nonlinear_arith)
                requires
                    -SCALE <= forward.x <= SCALE,
                    -SCALE <= forward.z <= SCALE,
                    -SCALE <= local_x.x <= SCALE,
                    -SCALE <= local_x.z <= SCALE,
                    forward.y == 0;
            lemma_scale_squared();
        }
        let d: i64 = forward.x * local_x.x + forward.z * local_x.z;
        if d == 0 {
            Some(t)
        } else {
            None
        }
    }

    /// The pose at `translation` with the stock orientation: forward along
    /// world minus-Z, local X along world X.
    pub fn from_translation(translation: Vec3) -> (r: Option<Transform>)
        ensures
            r matches Some(t) ==> t.wf() && t.translation == translation && t.forward == (Vec3 {
                x: 0,
                y: 0,
                z: (-SCALE) as i64,
            }) && t.local_x == (Vec3 { x: SCALE, y: 0, z: 0 }),
            r is None ==> !translation.bounded(MAX_COORD as int),
    {
        if !in_coord_range(translation) {
            return None;
        }
        let t = Transform {
            translation,
            forward: Vec3 { x: 0, y: 0, z: -SCALE },
            local_x: Vec3 { x: SCALE, y: 0, z: 0 },
        };
        proof {
            lemma_scale_squared();
            assert(t.forward.x * t.forward.x + t.forward.y * t.forward.y + t.forward.z
                * t.forward.z == 1_000_000 && t.local_x.x * t.local_x.x + t.local_x.y
                * t.local_x.y + t.local_x.z * t.local_x.z == 1_000_000 && t.forward.x
                * t.local_x.x + t.forward.y * t.local_x.y + t.forward.z * t.local_x.z == 0)
                by (nonlinear_arith)
                requires
                    t.forward.x == 0,
                    t.forward.y == 0,
                    t.forward.z == -1000,
                    t.local_x.x == 1000,
                    t.local_x.y == 0,
                    t.local_x.z == 0;
        }
        Some(t)
    }
}

/// Every component of `v` within the coordinate range.
fn in_coord_range(v: Vec3) -> (r: bool)
    ensures
        r == v.bounded(MAX_COORD as int),
{
    -MAX_COORD <= v.x && v.x <= MAX_COORD && -MAX_COORD <= v.y && v.y <= MAX_COORD
        && -MAX_COORD <= v.z && v.z <= MAX_COORD
}

/// Whether `v` lies in the horizontal plane with unit squared length.
fn is_horizontal_unit(v: Vec3) -> (r: bool)
    ensures
        r == (v.y == 0 && v.len2() == SCALE * SCALE),
{
    if v.y != 0 {
        return false;
    }
    if v.x < -SCALE || v.x > SCALE || v.z < -SCALE || v.z > SCALE {
        proof {
            lemma_big_component_big_len2(v);
        }
        return false;
    }
    proof {
        assert(0 <= v.x * v.x <= SCALE * SCALE && 0 <= v.z * v.z <= SCALE * SCALE
            && v.y * v.y == 0) by (nonlinear_arith)
            requires
                -SCALE <= v.x <= SCALE,
                -SCALE <= v.z <= SCALE,
                v.y == 0;
        lemma_scale_squared();
    }
    let n2: i64 = v.x * v.x + v.z * v.z;
    n2 == 1_000_000
}

/// A horizontal vector with a component beyond `SCALE` cannot have unit
/// squared length.
proof fn lemma_big_component_big_len2(v: Vec3)
    requires
        v.y == 0,
        v.x < -SCALE || v.x > SCALE || v.z < -SCALE || v.z > SCALE,
    ensures
        v.len2() != SCALE * SCALE,
{
    assert(v.x * v.x + v.y * v.y + v.z * v.z > SCALE * SCALE) by (nonlinear_arith)
        requires
            v.y == 0,
            v.x < -SCALE || v.x > SCALE || v.z < -SCALE || v.z > SCALE;
}

/// A component of a vector of unit squared length stays within `SCALE`.
pub proof fn lemma_unit_component_bounds(v: Vec3)
    requires
        v.len2() == SCALE * SCALE,
    ensures
        -SCALE <= v.x <= SCALE,
        -SCALE <= v.y <= SCALE,
        -SCALE <= v.z <= SCALE,
{
    assert(-SCALE <= v.x <= SCALE && -SCALE <= v.y <= SCALE && -SCALE <= v.z <= SCALE)
        by (nonlinear_arith)
        requires
            v.x * v.x + v.y * v.y + v.z * v.z == SCALE * SCALE;
}

/// The physical state of a body as the integrator last committed it.
#[derive(Clone, Copy, Debug)]
pub struct BodyState {
    pub transform: Transform,
    pub linvel: Vec3,
    pub angvel: Vec3,
}

impl BodyState {
    pub open spec fn wf(self) -> bool {
        &&& self.transform.wf()
        &&& self.linvel.bounded(MAX_COORD as int)
        &&& self.angvel.bounded(MAX_COORD as int)
    }
}

} // verus!
