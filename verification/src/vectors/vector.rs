use crate::vectors::scalar::Scalar;
use vstd::prelude::*;

verus! {

/// Represents a vector in the 3D space.
#[derive(Clone, Copy, Debug)]
pub struct Vector {
    pub x: Scalar,
    pub y: Scalar,
    pub z: Scalar,
}

/// A vector used as a position.
pub type Point = Vector;

impl Vector {
    /// The vector pointing the opposite way.
    pub open spec fn reversed(self) -> Vector {
        Vector { x: self.x.opposite(), y: self.y.opposite(), z: self.z.opposite() }
    }

    pub fn new(x: Scalar, y: Scalar, z: Scalar) -> (v: Vector)
        ensures
            v == (Vector { x, y, z }),
    {
        Vector { x, y, z }
    }

    /// Generate a vector with all elements equal to 0
    pub fn zeroes() -> (v: Vector)
        ensures
            v.x.bits == 0,
            v.y.bits == 0,
            v.z.bits == 0,
    {
        Vector::new(Scalar::zero(), Scalar::zero(), Scalar::zero())
    }

    /// Flips the sign of every component.
    pub fn neg(self) -> (v: Vector)
        ensures
            v == self.reversed(),
    {
        Vector { x: self.x.neg(), y: self.y.neg(), z: self.z.neg() }
    }
}

} // verus!
