//! Pairs and triples of scalars.

use crate::scalar::Scalar;
use vstd::prelude::*;

verus! {

/// A pair of scalars: a size in the plane, or a texture coordinate.
#[derive(Clone, Copy, Debug, PartialEq, Eq, Hash, Structural)]
pub struct Vec2 {
    pub x: Scalar,
    pub y: Scalar,
}

/// A triple of scalars: a position or a direction in space.
#[derive(Clone, Copy, Debug, PartialEq, Eq, Hash, Structural)]
pub struct Vec3 {
    pub x: Scalar,
    pub y: Scalar,
    pub z: Scalar,
}

impl Vec2 {
    pub open spec fn spec_new(x: Scalar, y: Scalar) -> Vec2 {
        Vec2 { x, y }
    }

    #[verifier::when_used_as_spec(spec_new)]
    pub fn new(x: Scalar, y: Scalar) -> (r: Vec2)
        ensures
            r == Self::spec_new(x, y),
    {
        Vec2 { x, y }
    }
}

impl Vec3 {
    pub open spec fn spec_new(x: Scalar, y: Scalar, z: Scalar) -> Vec3 {
        Vec3 { x, y, z }
    }

    #[verifier::when_used_as_spec(spec_new)]
    pub fn new(x: Scalar, y: Scalar, z: Scalar) -> (r: Vec3)
        ensures
            r == Self::spec_new(x, y, z),
    {
        Vec3 { x, y, z }
    }

    /// Whether the triple is one of the six unit vectors along an axis:
    /// one component is `1.0` or `-1.0`, the other two are `0.0`.
    pub open spec fn is_axis_unit(self) -> bool {
        let unit = |s: Scalar| s == Scalar::one() || s == Scalar::neg_one();
        ||| unit(self.x) && self.y == Scalar::zero() && self.z == Scalar::zero()
        ||| self.x == Scalar::zero() && unit(self.y) && self.z == Scalar::zero()
        ||| self.x == Scalar::zero() && self.y == Scalar::zero() && unit(self.z)
    }
}

} // verus!
