use vstd::prelude::*;
use crate::pose::PoseSnapshot;
use crate::swap_chain::ViewportSize;

verus! {

/// Fixed-point resolution of field-of-view tangents: 1.0 is this many steps.
pub const TANGENT_STEPS_PER_ONE: i64 = 1_000_000;

/// A pixel rectangle of an eye texture.
#[derive(Clone, Copy, Debug, PartialEq, Eq, Structural)]
pub struct Recti {
    pub x: i32,
    pub y: i32,
    pub width: i32,
    pub height: i32,
}

/// Field of view as the tangents of its four half-angles, in fixed-point
/// steps (see `TANGENT_STEPS_PER_ONE`).
#[derive(Clone, Copy, Debug, PartialEq, Eq, Structural)]
pub struct FovPort {
    pub up_tan: i64,
    pub down_tan: i64,
    pub left_tan: i64,
    pub right_tan: i64,
}

/// The single layer handed to the compositor for one stereo pair. Both eyes
/// use the same viewport and field of view; the textures are the current
/// chains of the pair.
#[derive(Clone, Copy, Debug, PartialEq, Eq, Structural)]
pub struct LayerEyeFov {
    pub viewport: Recti,
    pub fov: FovPort,
    pub render_poses: PoseSnapshot,
    /// Rows start at the bottom, as the graphics API stores them.
    pub origin_at_bottom_left: bool,
}

/// The fixed, symmetric field of view: a tangent of one on every side.
pub open spec fn unit_fov() -> FovPort {
    FovPort {
        up_tan: TANGENT_STEPS_PER_ONE,
        down_tan: TANGENT_STEPS_PER_ONE,
        left_tan: TANGENT_STEPS_PER_ONE,
        right_tan: TANGENT_STEPS_PER_ONE,
    }
}

pub open spec fn layer_spec(size: ViewportSize, poses: PoseSnapshot) -> LayerEyeFov {
    LayerEyeFov {
        viewport: Recti { x: 0, y: 0, width: size.width, height: size.height },
        fov: unit_fov(),
        render_poses: poses,
        origin_at_bottom_left: true,
    }
}

/// The field of view given to both eyes.
pub fn fov_port() -> (r: FovPort)
    ensures
        r == unit_fov(),
{
    FovPort {
        up_tan: TANGENT_STEPS_PER_ONE,
        down_tan: TANGENT_STEPS_PER_ONE,
        left_tan: TANGENT_STEPS_PER_ONE,
        right_tan: TANGENT_STEPS_PER_ONE,
    }
}

/// Describes the layer for a stereo pair rendered at `size` from `poses`.
pub fn layer(size: ViewportSize, poses: &PoseSnapshot) -> (r: LayerEyeFov)
    ensures
        r == layer_spec(size, *poses),
{
    LayerEyeFov {
        viewport: Recti { x: 0, y: 0, width: size.width, height: size.height },
        fov: fov_port(),
        render_poses: *poses,
        origin_at_bottom_left: true,
    }
}

} // verus!
