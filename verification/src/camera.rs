//! The trailing camera: a pose derived from the body's transform.
//!
//! Stateless and recomputed in full every step: the camera stands
//! `CAMERA_BACK_OFFSET` units along the body's `forward` axis (behind the
//! facing, since the body moves along minus `forward`) and one unit up, and
//! looks at the point the same offset ahead of the body — slightly past the
//! body's origin, not at it. No smoothing: any perceived smoothness comes
//! from the body's own motion.

use crate::math::{Vec3, SCALE};
use crate::transform::Transform;
use vstd::prelude::*;

verus! {

/// Units the camera trails behind the body, and looks ahead of it.
pub const CAMERA_BACK_OFFSET: i64 = 5;

/// A look-at pose: where the camera stands and what it looks at, with world
/// up implied.
#[derive(Clone, Copy, Debug, PartialEq, Eq, Structural)]
pub struct CameraPose {
    pub position: Vec3,
    pub target: Vec3,
}

/// Where the camera stands: the body, plus the back offset along `forward`,
/// plus one unit up.
pub open spec fn spec_camera_position(t: Transform) -> (int, int, int) {
    (
        t.translation.x + CAMERA_BACK_OFFSET * t.forward.x,
        t.translation.y + CAMERA_BACK_OFFSET * t.forward.y + SCALE,
        t.translation.z + CAMERA_BACK_OFFSET * t.forward.z,
    )
}

/// What the camera looks at: the point the back offset ahead of the body,
/// along the direction it moves (minus `forward`).
pub open spec fn spec_camera_target(t: Transform) -> (int, int, int) {
    (
        t.translation.x - CAMERA_BACK_OFFSET * t.forward.x,
        t.translation.y - CAMERA_BACK_OFFSET * t.forward.y,
        t.translation.z - CAMERA_BACK_OFFSET * t.forward.z,
    )
}

/// Recomputes the camera pose from the body's current transform alone.
pub fn move_camera(t: &Transform) -> (pose: CameraPose)
    requires
        t.wf(),
    ensures
        (pose.position.x as int, pose.position.y as int, pose.position.z as int)
            == spec_camera_position(*t),
        (pose.target.x as int, pose.target.y as int, pose.target.z as int) == spec_camera_target(
            *t,
        ),
{
    proof {
        crate::transform::lemma_unit_component_bounds(t.forward);
    }
    let position = Vec3 {
        x: t.translation.x + CAMERA_BACK_OFFSET * t.forward.x,
        y: t.translation.y + CAMERA_BACK_OFFSET * t.forward.y + SCALE,
        z: t.translation.z + CAMERA_BACK_OFFSET * t.forward.z,
    };
    let target = Vec3 {
        x: t.translation.x - CAMERA_BACK_OFFSET * t.forward.x,
        y: t.translation.y - CAMERA_BACK_OFFSET * t.forward.y,
        z: t.translation.z - CAMERA_BACK_OFFSET * t.forward.z,
    };
    CameraPose { position, target }
}

/// The camera pose is a pure function of the body transform: two steps that
/// read the same transform derive the same pose, whatever else changed.
pub proof fn lemma_camera_deterministic(t1: Transform, t2: Transform)
    requires
        t1 == t2,
    ensures
        spec_camera_position(t1) == spec_camera_position(t2),
        spec_camera_target(t1) == spec_camera_target(t2),
{
}

} // verus!
