use vstd::prelude::*;
use crate::eye::Eye;

verus! {

/// Fixed-point resolution of positions: one unit of length is this many steps.
pub const POSITION_STEPS_PER_UNIT: i64 = 1_000_000;

/// Fixed-point resolution of quaternion components: 1.0 is this many steps.
pub const QUAT_STEPS_PER_ONE: i64 = 1_000_000_000;

/// The runtime reports positions in metres; the host world uses units ten
/// times as large.
pub const WORLD_SCALE_DIVISOR: i64 = 10;

/// Down-offset of the camera below the tracked head, in host units
/// (0.17 * 0.9), applied in camera space before the tracked position.
pub const CAMERA_DOWN_OFFSET: i64 = 153_000;

/// A position or offset, in fixed-point steps (see `POSITION_STEPS_PER_UNIT`).
#[derive(Clone, Copy, Debug, PartialEq, Eq, Structural)]
pub struct Vector3 {
    pub x: i64,
    pub y: i64,
    pub z: i64,
}

/// An orientation quaternion, in fixed-point steps (see `QUAT_STEPS_PER_ONE`).
#[derive(Clone, Copy, Debug, PartialEq, Eq, Structural)]
pub struct Quat {
    pub x: i64,
    pub y: i64,
    pub z: i64,
    pub w: i64,
}

/// A tracked pose: a position and an orientation.
#[derive(Clone, Copy, Debug, PartialEq, Eq, Structural)]
pub struct Posef {
    pub position: Vector3,
    pub orientation: Quat,
}

/// Integer division rounding toward zero, as machine division does.
pub open spec fn div_toward_zero(v: int, d: int) -> int
    recommends
        d > 0,
{
    if v >= 0 {
        v / d
    } else {
        -((-v) / d)
    }
}

/// The position in host-world axes and scale: x and z change sign, and every
/// axis is divided by `WORLD_SCALE_DIVISOR`.
pub open spec fn host_position(p: Vector3) -> Vector3 {
    Vector3 {
        x: (-div_toward_zero(p.x as int, WORLD_SCALE_DIVISOR as int)) as i64,
        y: div_toward_zero(p.y as int, WORLD_SCALE_DIVISOR as int) as i64,
        z: (-div_toward_zero(p.z as int, WORLD_SCALE_DIVISOR as int)) as i64,
    }
}

fn div_world_scale(v: i64) -> (r: i64)
    ensures
        r as int == div_toward_zero(v as int, WORLD_SCALE_DIVISOR as int),
        -922337203685477580 <= r <= 922337203685477580,
{
    if v >= 0 {
        v / WORLD_SCALE_DIVISOR
    } else if v == i64::MIN {
        -922337203685477580
    } else {
        -((-v) / WORLD_SCALE_DIVISOR)
    }
}

/// The pose at the origin, looking down the default axis (identity rotation).
pub fn zero_posef() -> (r: Posef)
    ensures
        r == zero_posef_spec(),
{
    Posef {
        position: Vector3 { x: 0, y: 0, z: 0 },
        orientation: Quat { x: 0, y: 0, z: 0, w: QUAT_STEPS_PER_ONE },
    }
}

/// Maps a runtime pose onto the host world's scale and handedness; the
/// orientation is kept.
pub fn scale_posef(pose: &mut Posef)
    ensures
        final(pose).position == host_position(old(pose).position),
        final(pose).orientation == old(pose).orientation,
{
    pose.position = Vector3 {
        x: -div_world_scale(pose.position.x),
        y: div_world_scale(pose.position.y),
        z: -div_world_scale(pose.position.z),
    };
}

/// Both eyes' poses, taken from one tracking query.
#[derive(Clone, Copy, Debug, PartialEq, Eq, Structural)]
pub struct PoseSnapshot {
    pub left: Posef,
    pub right: Posef,
}

impl PoseSnapshot {
    pub open spec fn pose_of(&self, eye: Eye) -> Posef {
        match eye {
            Eye::Left => self.left,
            Eye::Right => self.right,
        }
    }

    pub open spec fn identity_spec() -> PoseSnapshot {
        PoseSnapshot { left: zero_posef_spec(), right: zero_posef_spec() }
    }

    /// The snapshot used before any tracking query: both eyes at the origin.
    pub fn identity() -> (r: PoseSnapshot)
        ensures
            r == Self::identity_spec(),
    {
        PoseSnapshot { left: zero_posef(), right: zero_posef() }
    }

    /// Builds a snapshot from the runtime's two eye poses, mapped onto the
    /// host world by `scale_posef`.
    pub fn from_runtime(left: Posef, right: Posef) -> (r: PoseSnapshot)
        ensures
            r.left.position == host_position(left.position),
            r.left.orientation == left.orientation,
            r.right.position == host_position(right.position),
            r.right.orientation == right.orientation,
    {
        let mut l = left;
        let mut r = right;
        scale_posef(&mut l);
        scale_posef(&mut r);
        PoseSnapshot { left: l, right: r }
    }

    /// The pose of `eye`.
    pub fn pose(&self, eye: Eye) -> (r: Posef)
        ensures
            r == self.pose_of(eye),
    {
        match eye {
            Eye::Left => self.left,
            Eye::Right => self.right,
        }
    }
}

/// The identity pose: at the origin, with no rotation.
pub open spec fn zero_posef_spec() -> Posef {
    Posef {
        position: Vector3 { x: 0, y: 0, z: 0 },
        orientation: Quat { x: 0, y: 0, z: 0, w: QUAT_STEPS_PER_ONE },
    }
}

} // verus!
