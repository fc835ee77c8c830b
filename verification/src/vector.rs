//! Small vectors of binary32 values, held component by component.

use vstd::prelude::*;
use crate::ieee::Binary32;

verus! {

/// A point or direction in the ground plane.
#[derive(Clone, Copy, Debug, PartialEq, Eq, Structural)]
pub struct Vec2 {
    pub x: Binary32,
    pub y: Binary32,
}

/// A point or direction in world space; `y` is the height.
#[derive(Clone, Copy, Debug, PartialEq, Eq, Structural)]
pub struct Vec3 {
    pub x: Binary32,
    pub y: Binary32,
    pub z: Binary32,
}

/// Four components: a texture coordinate pair with its two fixed channels.
#[derive(Clone, Copy, Debug, PartialEq, Eq, Structural)]
pub struct Vec4 {
    pub x: Binary32,
    pub y: Binary32,
    pub z: Binary32,
    pub w: Binary32,
}

/// A rotation as a quaternion, `w` the scalar part.
#[derive(Clone, Copy, Debug, PartialEq, Eq, Structural)]
pub struct Quat {
    pub x: Binary32,
    pub y: Binary32,
    pub z: Binary32,
    pub w: Binary32,
}

impl Vec3 {
    /// The direction turned round: every component negated.
    pub open spec fn negated(self) -> Vec3 {
        Vec3 { x: self.x.negated(), y: self.y.negated(), z: self.z.negated() }
    }

    pub fn neg(self) -> (r: Vec3)
        ensures
            r == self.negated(),
    {
        Vec3 { x: self.x.neg(), y: self.y.neg(), z: self.z.neg() }
    }
}

impl Quat {
    /// The rotation that turns nothing: `(0, 0, 0, 1)`.
    pub open spec fn identity_spec() -> Quat {
        Quat {
            x: Binary32 { bits: 0 },
            y: Binary32 { bits: 0 },
            z: Binary32 { bits: 0 },
            w: Binary32 { bits: crate::ieee::ONE_BITS },
        }
    }

    pub fn identity() -> (r: Quat)
        ensures
            r == Self::identity_spec(),
    {
        Quat { x: Binary32::zero(), y: Binary32::zero(), z: Binary32::zero(), w: Binary32::one() }
    }
}

} // verus!
