use crate::vectors::vector::Point;
use crate::vectors::vector::Vector;
use vstd::prelude::*;

verus! {

/// An origin point plus a direction vector.
#[derive(Clone, Copy, Debug)]
pub struct Ray {
    pub origin: Point,
    pub direction: Vector,
}

impl Ray {
    pub fn new(origin: Point, direction: Vector) -> (ray: Ray)
        ensures
            ray == (Ray { origin, direction }),
    {
        Ray { origin, direction }
    }
}

} // verus!
