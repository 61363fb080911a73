use vstd::prelude::*;
use crate::arithmetic::{exact, Arithmetic};
use crate::matrices::Matrix;
use crate::scalar::Scalar;
use crate::tuples::{Point, Vector};

verus! {

/// A half line: where it starts and which way it goes.
#[derive(Debug, Clone, Copy)]
pub struct Ray {
    pub origin: Point,
    pub direction: Vector,
}

impl Ray {
    pub fn new(origin: Point, direction: Vector) -> (r: Ray)
        ensures
            r.origin == origin,
            r.direction == direction,
    {
        Ray { origin, direction }
    }

    /// `origin + direction * t`.
    pub open spec fn position_of<A: Arithmetic>(self, t: Scalar, ar: &A) -> Point {
        self.origin.plus_of(self.direction.times_of(t, ar), ar)
    }

    /// The point at distance `t` along the ray.
    pub fn position<A: Arithmetic>(&self, t: Scalar, ar: &A) -> (p: Point)
        ensures
            exact(ar) ==> p == self.position_of(t, ar),
    {
        self.origin.plus(self.direction.times(t, ar), ar)
    }

    /// `t` applied to the origin as a point and to the direction as a
    /// direction, which is not brought to length one.
    pub open spec fn transformed_by<A: Arithmetic>(self, t: Matrix<4, 4>, ar: &A) -> Ray {
        Ray {
            origin: t.times_point_of(self.origin, ar),
            direction: t.times_vector_of(self.direction, ar),
        }
    }

    /// The ray as `t` maps it.
    pub fn transform<A: Arithmetic>(&self, t: Matrix<4, 4>, ar: &A) -> (r: Ray)
        ensures
            exact(ar) ==> r == self.transformed_by(t, ar),
    {
        Ray { origin: t.times_point(self.origin, ar), direction: t.times_vector(self.direction, ar) }
    }
}

} // verus!
