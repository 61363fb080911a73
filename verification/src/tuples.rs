use vstd::prelude::*;
use crate::arithmetic::{
    difference_of,
    exact,
    powi_of,
    product_of,
    quotient_of,
    sqrt_of,
    sum_of,
    Arithmetic,
};
use crate::scalar::Scalar;

pub mod external_tuples;
pub mod mytuples;

pub use mytuples::{Color, Point, Vector};

verus! {

/// The bit pattern of one thousandth: how far a hit point is moved off its
/// surface, and how flat a ray must run to count as running along a plane.
pub const EPSILON: u32 = 0x3a83_126f;

/// The bit pattern of one hundredth: how far apart two coordinates or two
/// channels may lie and still count as equal.
pub const TOLERANCE: u32 = 0x3c23_d70a;

/// One thousandth as a number.
pub fn epsilon() -> (e: Scalar)
    ensures
        e.bits == EPSILON,
{
    Scalar::from_bits(EPSILON)
}

/// One hundredth as a number.
pub fn tolerance() -> (e: Scalar)
    ensures
        e.bits == TOLERANCE,
{
    Scalar::from_bits(TOLERANCE)
}

/// Four numbers: three coordinates and a homogeneous one, which is one for
/// a point and zero for a direction.
#[derive(Debug, Copy, Clone)]
pub struct Tuple {
    data: [Scalar; 4],
}

/// Four numbers as a tuple is made of them.
pub type Quad = (Scalar, Scalar, Scalar, Scalar);

/// `a + b`, number by number.
pub open spec fn quad_sum<A: Arithmetic>(a: Quad, b: Quad, ar: &A) -> Quad {
    (sum_of(ar, a.0, b.0), sum_of(ar, a.1, b.1), sum_of(ar, a.2, b.2), sum_of(ar, a.3, b.3))
}

/// `a - b`, number by number.
pub open spec fn quad_difference<A: Arithmetic>(a: Quad, b: Quad, ar: &A) -> Quad {
    (
        difference_of(ar, a.0, b.0),
        difference_of(ar, a.1, b.1),
        difference_of(ar, a.2, b.2),
        difference_of(ar, a.3, b.3),
    )
}

/// `a * b`, number by number.
pub open spec fn quad_product<A: Arithmetic>(a: Quad, b: Quad, ar: &A) -> Quad {
    (
        product_of(ar, a.0, b.0),
        product_of(ar, a.1, b.1),
        product_of(ar, a.2, b.2),
        product_of(ar, a.3, b.3),
    )
}

/// Each number of `a` times `k`.
pub open spec fn quad_scaled<A: Arithmetic>(a: Quad, k: Scalar, ar: &A) -> Quad {
    quad_product(a, (k, k, k, k), ar)
}

/// Each number of `a` over `k`.
pub open spec fn quad_divided<A: Arithmetic>(a: Quad, k: Scalar, ar: &A) -> Quad {
    (quotient_of(ar, a.0, k), quotient_of(ar, a.1, k), quotient_of(ar, a.2, k), quotient_of(ar, a.3, k))
}

/// The root of the sum of the squares of the three coordinates.
pub open spec fn quad_magnitude<A: Arithmetic>(a: Quad, ar: &A) -> Scalar {
    sqrt_of(ar, sum_of(ar, sum_of(ar, powi_of(ar, a.0, 2), powi_of(ar, a.1, 2)), powi_of(ar, a.2, 2)))
}

/// The direction of `a` at length one: each coordinate over the length,
/// with zero for the homogeneous one.
pub open spec fn quad_normalized<A: Arithmetic>(a: Quad, ar: &A) -> Quad {
    let m = quad_magnitude(a, ar);
    (quotient_of(ar, a.0, m), quotient_of(ar, a.1, m), quotient_of(ar, a.2, m), Scalar { bits: 0 })
}

/// The dot product of the coordinates, summed from the left.
pub open spec fn quad_dot<A: Arithmetic>(a: Quad, b: Quad, ar: &A) -> Scalar {
    sum_of(ar, sum_of(ar, product_of(ar, a.0, b.0), product_of(ar, a.1, b.1)), product_of(ar, a.2, b.2))
}

/// The cross product of the coordinates, as a direction.
pub open spec fn quad_cross<A: Arithmetic>(a: Quad, b: Quad, ar: &A) -> Quad {
    (
        difference_of(ar, product_of(ar, a.1, b.2), product_of(ar, a.2, b.1)),
        difference_of(ar, product_of(ar, a.2, b.0), product_of(ar, a.0, b.2)),
        difference_of(ar, product_of(ar, a.0, b.1), product_of(ar, a.1, b.0)),
        Scalar { bits: 0 },
    )
}

/// `a - normal * (2 * (a . normal))`.
pub open spec fn quad_reflected<A: Arithmetic>(a: Quad, normal: Quad, ar: &A) -> Quad {
    let twice = product_of(ar, Scalar { bits: 0x4000_0000 }, quad_dot(a, normal, ar));
    quad_difference(a, quad_scaled(normal, twice, ar), ar)
}

/// Whether the four numbers of `a` count as equal to those of `b`.
pub open spec fn quad_close<A: Arithmetic>(a: Quad, b: Quad, ar: &A) -> bool {
    &&& mytuples::close_of(a.0, b.0, ar)
    &&& mytuples::close_of(a.1, b.1, ar)
    &&& mytuples::close_of(a.2, b.2, ar)
    &&& mytuples::close_of(a.3, b.3, ar)
}

/// The length of the direction `tuple`.
pub fn magnitude<A: Arithmetic>(tuple: &Tuple, ar: &A) -> (m: Scalar)
    ensures
        exact(ar) ==> m == quad_magnitude(tuple.quad(), ar),
{
    ar.sqrt(ar.sum(ar.sum(ar.powi(tuple.x(), 2), ar.powi(tuple.y(), 2)), ar.powi(tuple.z(), 2)))
}

/// The direction `tuple` at length one.
pub fn normalize<A: Arithmetic>(tuple: &Tuple, ar: &A) -> (n: Tuple)
    ensures
        exact(ar) ==> n.quad() == quad_normalized(tuple.quad(), ar),
{
    Tuple::vector(
        ar.quotient(tuple.x(), magnitude(tuple, ar)),
        ar.quotient(tuple.y(), magnitude(tuple, ar)),
        ar.quotient(tuple.z(), magnitude(tuple, ar)),
    )
}

/// The dot product of two directions.
pub fn dot<A: Arithmetic>(a: &Tuple, b: &Tuple, ar: &A) -> (d: Scalar)
    ensures
        exact(ar) ==> d == quad_dot(a.quad(), b.quad(), ar),
{
    ar.sum(ar.sum(ar.product(a.x(), b.x()), ar.product(a.y(), b.y())), ar.product(a.z(), b.z()))
}

/// The cross product of two directions.
pub fn cross<A: Arithmetic>(a: &Tuple, b: &Tuple, ar: &A) -> (c: Tuple)
    ensures
        exact(ar) ==> c.quad() == quad_cross(a.quad(), b.quad(), ar),
{
    Tuple::vector(
        ar.difference(ar.product(a.y(), b.z()), ar.product(a.z(), b.y())),
        ar.difference(ar.product(a.z(), b.x()), ar.product(a.x(), b.z())),
        ar.difference(ar.product(a.x(), b.y()), ar.product(a.y(), b.x())),
    )
}

/// `a` mirrored at the surface whose normal is `normal`.
pub fn reflect<A: Arithmetic>(a: &Tuple, normal: &Tuple, ar: &A) -> (r: Tuple)
    ensures
        exact(ar) ==> r.quad() == quad_reflected(a.quad(), normal.quad(), ar),
{
    let twice = ar.product(Scalar::two(), dot(a, normal, ar));
    a.minus(normal.times(twice, ar), ar)
}

impl Tuple {
    /// The four numbers: x, y, z and the homogeneous one.
    pub closed spec fn quad(self) -> Quad {
        (self.data[0], self.data[1], self.data[2], self.data[3])
    }

    pub fn new(x: Scalar, y: Scalar, z: Scalar, w: Scalar) -> (t: Self)
        ensures
            t.quad() == (x, y, z, w),
    {
        Tuple { data: [x, y, z, w] }
    }

    /// The tuple that holds `value` four times.
    pub fn init(value: Scalar) -> (t: Self)
        ensures
            t.quad() == (value, value, value, value),
    {
        Self::new(value, value, value, value)
    }

    /// The point at `(x, y, z)`.
    pub fn point(x: Scalar, y: Scalar, z: Scalar) -> (t: Self)
        ensures
            t.quad() == (x, y, z, Scalar { bits: 0x3f80_0000 }),
    {
        Self::new(x, y, z, Scalar::one())
    }

    /// The direction `(x, y, z)`.
    pub fn vector(x: Scalar, y: Scalar, z: Scalar) -> (t: Self)
        ensures
            t.quad() == (x, y, z, Scalar { bits: 0 }),
    {
        Self::new(x, y, z, Scalar::zero())
    }

    /// The number at `index`, counting x, y, z and the homogeneous one from
    /// zero.
    pub fn get(&self, index: usize) -> (v: Scalar)
        requires
            index < 4,
        ensures
            index == 0 ==> v == self.quad().0,
            index == 1 ==> v == self.quad().1,
            index == 2 ==> v == self.quad().2,
            index == 3 ==> v == self.quad().3,
    {
        self.data[index]
    }

    /// Replaces the number at `index`.
    pub fn set(&mut self, index: usize, value: Scalar)
        requires
            index < 4,
        ensures
            final(self).quad().0 == if index == 0 { value } else { old(self).quad().0 },
            final(self).quad().1 == if index == 1 { value } else { old(self).quad().1 },
            final(self).quad().2 == if index == 2 { value } else { old(self).quad().2 },
            final(self).quad().3 == if index == 3 { value } else { old(self).quad().3 },
    {
        self.data[index] = value;
    }

    pub fn x(&self) -> (v: Scalar)
        ensures
            v == self.quad().0,
    {
        self.get(0)
    }

    pub fn y(&self) -> (v: Scalar)
        ensures
            v == self.quad().1,
    {
        self.get(1)
    }

    pub fn z(&self) -> (v: Scalar)
        ensures
            v == self.quad().2,
    {
        self.get(2)
    }

    pub fn w(&self) -> (v: Scalar)
        ensures
            v == self.quad().3,
    {
        self.get(3)
    }

    /// Whether the homogeneous number equals zero.
    pub fn is_vector(&self) -> (b: bool)
        ensures
            b == self.quad().3.same(Scalar { bits: 0 }),
    {
        self.w().equals(Scalar::zero())
    }

    /// Whether the homogeneous number equals one.
    pub fn is_point(&self) -> (b: bool)
        ensures
            b == self.quad().3.same(Scalar { bits: 0x3f80_0000 }),
    {
        self.w().equals(Scalar::one())
    }

    /// Whether the four numbers of `self` count as equal to those of `other`.
    pub fn approx_eq<A: Arithmetic>(&self, other: &Tuple, ar: &A) -> (e: bool)
        ensures
            exact(ar) ==> e == quad_close(self.quad(), other.quad(), ar),
    {
        mytuples::close(self.x(), other.x(), ar) && mytuples::close(self.y(), other.y(), ar)
            && mytuples::close(self.z(), other.z(), ar) && mytuples::close(self.w(), other.w(), ar)
    }

    /// `self + other`, number by number.
    pub fn plus<A: Arithmetic>(self, other: Tuple, ar: &A) -> (t: Tuple)
        ensures
            exact(ar) ==> t.quad() == quad_sum(self.quad(), other.quad(), ar),
    {
        Tuple::new(
            ar.sum(self.x(), other.x()),
            ar.sum(self.y(), other.y()),
            ar.sum(self.z(), other.z()),
            ar.sum(self.w(), other.w()),
        )
    }

    /// `self - other`, number by number.
    pub fn minus<A: Arithmetic>(self, other: Tuple, ar: &A) -> (t: Tuple)
        ensures
            exact(ar) ==> t.quad() == quad_difference(self.quad(), other.quad(), ar),
    {
        Tuple::new(
            ar.difference(self.x(), other.x()),
            ar.difference(self.y(), other.y()),
            ar.difference(self.z(), other.z()),
            ar.difference(self.w(), other.w()),
        )
    }

    /// `-self`: each number times minus one.
    pub fn neg<A: Arithmetic>(self, ar: &A) -> (t: Tuple)
        ensures
            exact(ar) ==> t.quad() == quad_scaled(self.quad(), Scalar { bits: 0xbf80_0000 }, ar),
    {
        Tuple::new(
            ar.product(self.x(), Scalar::minus_one()),
            ar.product(self.y(), Scalar::minus_one()),
            ar.product(self.z(), Scalar::minus_one()),
            ar.product(self.w(), Scalar::minus_one()),
        )
    }

    /// Each number times `rhs`.
    pub fn times<A: Arithmetic>(self, rhs: Scalar, ar: &A) -> (t: Tuple)
        ensures
            exact(ar) ==> t.quad() == quad_scaled(self.quad(), rhs, ar),
    {
        Tuple::new(
            ar.product(self.x(), rhs),
            ar.product(self.y(), rhs),
            ar.product(self.z(), rhs),
            ar.product(self.w(), rhs),
        )
    }

    /// `self * rhs`, number by number.
    pub fn blend<A: Arithmetic>(self, rhs: Tuple, ar: &A) -> (t: Tuple)
        ensures
            exact(ar) ==> t.quad() == quad_product(self.quad(), rhs.quad(), ar),
    {
        Tuple::new(
            ar.product(self.x(), rhs.x()),
            ar.product(self.y(), rhs.y()),
            ar.product(self.z(), rhs.z()),
            ar.product(self.w(), rhs.w()),
        )
    }

    /// Each number over `rhs`.
    pub fn divided_by<A: Arithmetic>(self, rhs: Scalar, ar: &A) -> (t: Tuple)
        ensures
            exact(ar) ==> t.quad() == quad_divided(self.quad(), rhs, ar),
    {
        Tuple::new(
            ar.quotient(self.x(), rhs),
            ar.quotient(self.y(), rhs),
            ar.quotient(self.z(), rhs),
            ar.quotient(self.w(), rhs),
        )
    }
}

} // verus!
