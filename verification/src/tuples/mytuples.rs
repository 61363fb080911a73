use vstd::prelude::*;
use crate::arithmetic::{
    difference_of,
    exact,
    powi_of,
    product_of,
    quotient_of,
    sqrt_of,
    sum_of,
    Arithmetic,
};
use crate::scalar::Scalar;
use crate::tuples::{tolerance, TOLERANCE};

verus! {

/// What points and directions have in common: three coordinates and a
/// fourth, homogeneous one that tells them apart.
pub trait Tuple {
    /// The three coordinates, in the order x, y, z.
    spec fn coordinates(&self) -> (Scalar, Scalar, Scalar);

    /// The homogeneous coordinate: one for a point, zero for a direction.
    spec fn weight(&self) -> Scalar;

    fn x(&self) -> (v: Scalar)
        ensures
            v == self.coordinates().0,
    ;

    fn y(&self) -> (v: Scalar)
        ensures
            v == self.coordinates().1,
    ;

    fn z(&self) -> (v: Scalar)
        ensures
            v == self.coordinates().2,
    ;

    fn w(&self) -> (v: Scalar)
        ensures
            v == self.weight(),
    ;

    fn set_x(&mut self, value: Scalar)
        ensures
            final(self).coordinates() == (value, old(self).coordinates().1, old(self).coordinates().2),
            final(self).weight() == old(self).weight(),
    ;

    fn set_y(&mut self, value: Scalar)
        ensures
            final(self).coordinates() == (old(self).coordinates().0, value, old(self).coordinates().2),
            final(self).weight() == old(self).weight(),
    ;

    fn set_z(&mut self, value: Scalar)
        ensures
            final(self).coordinates() == (old(self).coordinates().0, old(self).coordinates().1, value),
            final(self).weight() == old(self).weight(),
    ;

    /// Whether the homogeneous coordinate equals one.
    fn is_point(&self) -> (b: bool)
        ensures
            b == self.weight().same(Scalar { bits: 0x3f80_0000 }),
    {
        self.w().equals(Scalar::one())
    }

    /// Whether the homogeneous coordinate equals zero.
    fn is_vector(&self) -> (b: bool)
        ensures
            b == self.weight().same(Scalar { bits: 0 }),
    {
        self.w().equals(Scalar::zero())
    }

    /// The coordinate at `index`, counting x, y, z and the homogeneous one
    /// from zero.
    fn get(&self, index: usize) -> (v: Scalar)
        requires
            index <= 3,
        ensures
            index == 0 ==> v == self.coordinates().0,
            index == 1 ==> v == self.coordinates().1,
            index == 2 ==> v == self.coordinates().2,
            index == 3 ==> v == self.weight(),
    {
        if index == 0 {
            self.x()
        } else if index == 1 {
            self.y()
        } else if index == 2 {
            self.z()
        } else {
            self.w()
        }
    }

    /// Replaces the coordinate at `index`; the homogeneous coordinate, and
    /// any index past it, is left alone.
    fn set(&mut self, index: usize, value: Scalar)
        ensures
            final(self).weight() == old(self).weight(),
            final(self).coordinates().0 == if index == 0 { value } else { old(self).coordinates().0 },
            final(self).coordinates().1 == if index == 1 { value } else { old(self).coordinates().1 },
            final(self).coordinates().2 == if index == 2 { value } else { old(self).coordinates().2 },
    {
        if index == 0 {
            self.set_x(value)
        } else if index == 1 {
            self.set_y(value)
        } else if index == 2 {
            self.set_z(value)
        }
    }
}

/// A direction in space.
#[derive(Debug, Clone, Copy)]
pub struct Vector {
    pub x: Scalar,
    pub y: Scalar,
    pub z: Scalar,
}

/// A place in space.
#[derive(Debug, Clone, Copy)]
pub struct Point {
    pub x: Scalar,
    pub y: Scalar,
    pub z: Scalar,
}

/// An amount of light in three channels. A channel may exceed one.
#[derive(Debug, Clone, Copy)]
pub struct Color {
    pub r: Scalar,
    pub g: Scalar,
    pub b: Scalar,
}

impl Tuple for Vector {
    open spec fn coordinates(&self) -> (Scalar, Scalar, Scalar) {
        (self.x, self.y, self.z)
    }

    open spec fn weight(&self) -> Scalar {
        Scalar { bits: 0 }
    }

    fn x(&self) -> (v: Scalar) {
        self.x
    }

    fn y(&self) -> (v: Scalar) {
        self.y
    }

    fn z(&self) -> (v: Scalar) {
        self.z
    }

    fn w(&self) -> (v: Scalar) {
        Scalar::zero()
    }

    fn set_x(&mut self, value: Scalar) {
        self.x = value;
    }

    fn set_y(&mut self, value: Scalar) {
        self.y = value;
    }

    fn set_z(&mut self, value: Scalar) {
        self.z = value;
    }
}

impl Tuple for Point {
    open spec fn coordinates(&self) -> (Scalar, Scalar, Scalar) {
        (self.x, self.y, self.z)
    }

    open spec fn weight(&self) -> Scalar {
        Scalar { bits: 0x3f80_0000 }
    }

    fn x(&self) -> (v: Scalar) {
        self.x
    }

    fn y(&self) -> (v: Scalar) {
        self.y
    }

    fn z(&self) -> (v: Scalar) {
        self.z
    }

    fn w(&self) -> (v: Scalar) {
        Scalar::one()
    }

    fn set_x(&mut self, value: Scalar) {
        self.x = value;
    }

    fn set_y(&mut self, value: Scalar) {
        self.y = value;
    }

    fn set_z(&mut self, value: Scalar) {
        self.z = value;
    }
}

/// Whether the difference `d` of two numbers is small enough for the two to
/// count as equal: `|d| <= TOLERANCE`.
pub open spec fn negligible(d: Scalar) -> bool {
    d.absolute().at_most(Scalar { bits: TOLERANCE })
}

/// Whether the difference `d` of two numbers lets them count as equal.
pub fn is_negligible(d: Scalar) -> (b: bool)
    ensures
        b == negligible(d),
{
    d.abs().le(tolerance())
}

/// Whether `a` and `b` count as equal: they lie within `TOLERANCE` of each
/// other, by their difference `a - b`.
pub open spec fn close_of<A: Arithmetic>(a: Scalar, b: Scalar, ar: &A) -> bool {
    negligible(difference_of(ar, a, b))
}

/// Whether `a` and `b` count as equal.
pub fn close<A: Arithmetic>(a: Scalar, b: Scalar, ar: &A) -> (c: bool)
    ensures
        exact(ar) ==> c == close_of(a, b, ar),
{
    is_negligible(ar.difference(a, b))
}

impl Point {
    pub fn new(x: Scalar, y: Scalar, z: Scalar) -> (p: Point)
        ensures
            p.x == x,
            p.y == y,
            p.z == z,
    {
        Point { x, y, z }
    }

    /// `self + rhs`, coordinate by coordinate.
    pub open spec fn plus_of<A: Arithmetic>(self, rhs: Vector, ar: &A) -> Point {
        Point { x: sum_of(ar, self.x, rhs.x), y: sum_of(ar, self.y, rhs.y), z: sum_of(ar, self.z, rhs.z) }
    }

    /// The point reached from `self` by going along `rhs`.
    pub fn plus<A: Arithmetic>(self, rhs: Vector, ar: &A) -> (p: Point)
        ensures
            exact(ar) ==> p == self.plus_of(rhs, ar),
    {
        Point { x: ar.sum(self.x, rhs.x), y: ar.sum(self.y, rhs.y), z: ar.sum(self.z, rhs.z) }
    }

    /// `self - rhs`, coordinate by coordinate.
    pub open spec fn minus_of<A: Arithmetic>(self, rhs: Point, ar: &A) -> Vector {
        Vector {
            x: difference_of(ar, self.x, rhs.x),
            y: difference_of(ar, self.y, rhs.y),
            z: difference_of(ar, self.z, rhs.z),
        }
    }

    /// The direction that leads from `rhs` to `self`.
    pub fn minus<A: Arithmetic>(self, rhs: Point, ar: &A) -> (v: Vector)
        ensures
            exact(ar) ==> v == self.minus_of(rhs, ar),
    {
        Vector {
            x: ar.difference(self.x, rhs.x),
            y: ar.difference(self.y, rhs.y),
            z: ar.difference(self.z, rhs.z),
        }
    }

    /// `self - rhs`, coordinate by coordinate.
    pub open spec fn minus_vector_of<A: Arithmetic>(self, rhs: Vector, ar: &A) -> Point {
        Point {
            x: difference_of(ar, self.x, rhs.x),
            y: difference_of(ar, self.y, rhs.y),
            z: difference_of(ar, self.z, rhs.z),
        }
    }

    /// The point reached from `self` by going against `rhs`.
    pub fn minus_vector<A: Arithmetic>(self, rhs: Vector, ar: &A) -> (p: Point)
        ensures
            exact(ar) ==> p == self.minus_vector_of(rhs, ar),
    {
        Point {
            x: ar.difference(self.x, rhs.x),
            y: ar.difference(self.y, rhs.y),
            z: ar.difference(self.z, rhs.z),
        }
    }

    /// `self` with the sign of each coordinate flipped.
    pub open spec fn negated(self) -> Point {
        Point { x: self.x.negated(), y: self.y.negated(), z: self.z.negated() }
    }

    /// The point opposite to `self` across the origin: each coordinate with
    /// its sign flipped.
    pub fn neg(self) -> (p: Point)
        ensures
            p == self.negated(),
    {
        Point { x: self.x.neg(), y: self.y.neg(), z: self.z.neg() }
    }

    /// Each coordinate times `rhs`.
    pub open spec fn times_of<A: Arithmetic>(self, rhs: Scalar, ar: &A) -> Point {
        Point {
            x: product_of(ar, self.x, rhs),
            y: product_of(ar, self.y, rhs),
            z: product_of(ar, self.z, rhs),
        }
    }

    /// Each coordinate multiplied by `rhs`.
    pub fn times<A: Arithmetic>(self, rhs: Scalar, ar: &A) -> (p: Point)
        ensures
            exact(ar) ==> p == self.times_of(rhs, ar),
    {
        Point { x: ar.product(self.x, rhs), y: ar.product(self.y, rhs), z: ar.product(self.z, rhs) }
    }

    /// Each coordinate over `rhs`.
    pub open spec fn divided_by_of<A: Arithmetic>(self, rhs: Scalar, ar: &A) -> Point {
        Point {
            x: quotient_of(ar, self.x, rhs),
            y: quotient_of(ar, self.y, rhs),
            z: quotient_of(ar, self.z, rhs),
        }
    }

    /// Each coordinate divided by `rhs`.
    pub fn divided_by<A: Arithmetic>(self, rhs: Scalar, ar: &A) -> (p: Point)
        ensures
            exact(ar) ==> p == self.divided_by_of(rhs, ar),
    {
        Point { x: ar.quotient(self.x, rhs), y: ar.quotient(self.y, rhs), z: ar.quotient(self.z, rhs) }
    }

    /// Whether every coordinate of `self` counts as equal to that of
    /// `other`, the homogeneous ones too.
    pub open spec fn approx_eq_of<A: Arithmetic>(self, other: Point, ar: &A) -> bool {
        &&& close_of(self.x, other.x, ar)
        &&& close_of(self.y, other.y, ar)
        &&& close_of(self.z, other.z, ar)
        &&& close_of(self.weight(), other.weight(), ar)
    }

    /// Whether `self` and `other` count as the same point.
    pub fn approx_eq<A: Arithmetic>(&self, other: &Point, ar: &A) -> (e: bool)
        ensures
            exact(ar) ==> e == self.approx_eq_of(*other, ar),
    {
        close(self.x, other.x, ar) && close(self.y, other.y, ar) && close(self.z, other.z, ar)
            && close(self.w(), other.w(), ar)
    }
}

impl Vector {
    pub fn new(x: Scalar, y: Scalar, z: Scalar) -> (v: Vector)
        ensures
            v.x == x,
            v.y == y,
            v.z == z,
    {
        Vector { x, y, z }
    }

    /// `self + rhs`, coordinate by coordinate.
    pub open spec fn plus_of<A: Arithmetic>(self, rhs: Vector, ar: &A) -> Vector {
        Vector { x: sum_of(ar, self.x, rhs.x), y: sum_of(ar, self.y, rhs.y), z: sum_of(ar, self.z, rhs.z) }
    }

    pub fn plus<A: Arithmetic>(self, rhs: Vector, ar: &A) -> (v: Vector)
        ensures
            exact(ar) ==> v == self.plus_of(rhs, ar),
    {
        Vector { x: ar.sum(self.x, rhs.x), y: ar.sum(self.y, rhs.y), z: ar.sum(self.z, rhs.z) }
    }

    /// `self - rhs`, coordinate by coordinate.
    pub open spec fn minus_of<A: Arithmetic>(self, rhs: Vector, ar: &A) -> Vector {
        Vector {
            x: difference_of(ar, self.x, rhs.x),
            y: difference_of(ar, self.y, rhs.y),
            z: difference_of(ar, self.z, rhs.z),
        }
    }

    pub fn minus<A: Arithmetic>(self, rhs: Vector, ar: &A) -> (v: Vector)
        ensures
            exact(ar) ==> v == self.minus_of(rhs, ar),
    {
        Vector {
            x: ar.difference(self.x, rhs.x),
            y: ar.difference(self.y, rhs.y),
            z: ar.difference(self.z, rhs.z),
        }
    }

    /// `self` with the sign of each coordinate flipped.
    pub open spec fn negated(self) -> Vector {
        Vector { x: self.x.negated(), y: self.y.negated(), z: self.z.negated() }
    }

    /// The opposite direction: each coordinate with its sign flipped.
    pub fn neg(self) -> (v: Vector)
        ensures
            v == self.negated(),
    {
        Vector { x: self.x.neg(), y: self.y.neg(), z: self.z.neg() }
    }

    /// Each coordinate times `rhs`.
    pub open spec fn times_of<A: Arithmetic>(self, rhs: Scalar, ar: &A) -> Vector {
        Vector {
            x: product_of(ar, self.x, rhs),
            y: product_of(ar, self.y, rhs),
            z: product_of(ar, self.z, rhs),
        }
    }

    pub fn times<A: Arithmetic>(self, rhs: Scalar, ar: &A) -> (v: Vector)
        ensures
            exact(ar) ==> v == self.times_of(rhs, ar),
    {
        Vector { x: ar.product(self.x, rhs), y: ar.product(self.y, rhs), z: ar.product(self.z, rhs) }
    }

    /// Each coordinate over `rhs`.
    pub open spec fn divided_by_of<A: Arithmetic>(self, rhs: Scalar, ar: &A) -> Vector {
        Vector {
            x: quotient_of(ar, self.x, rhs),
            y: quotient_of(ar, self.y, rhs),
            z: quotient_of(ar, self.z, rhs),
        }
    }

    pub fn divided_by<A: Arithmetic>(self, rhs: Scalar, ar: &A) -> (v: Vector)
        ensures
            exact(ar) ==> v == self.divided_by_of(rhs, ar),
    {
        Vector { x: ar.quotient(self.x, rhs), y: ar.quotient(self.y, rhs), z: ar.quotient(self.z, rhs) }
    }

    /// The root of `x^2 + y^2 + z^2`, summed from the left.
    pub open spec fn magnitude_of<A: Arithmetic>(self, ar: &A) -> Scalar {
        sqrt_of(
            ar,
            sum_of(ar, sum_of(ar, powi_of(ar, self.x, 2), powi_of(ar, self.y, 2)), powi_of(ar, self.z, 2)),
        )
    }

    /// The length.
    pub fn magnitude<A: Arithmetic>(&self, ar: &A) -> (m: Scalar)
        ensures
            exact(ar) ==> m == self.magnitude_of(ar),
    {
        let xx = ar.powi(self.x, 2);
        let yy = ar.powi(self.y, 2);
        let zz = ar.powi(self.z, 2);
        ar.sqrt(ar.sum(ar.sum(xx, yy), zz))
    }

    /// Each coordinate over the length.
    pub open spec fn normalize_of<A: Arithmetic>(self, ar: &A) -> Vector {
        self.divided_by_of(self.magnitude_of(ar), ar)
    }

    /// The same direction at length one.
    pub fn normalize<A: Arithmetic>(&self, ar: &A) -> (v: Vector)
        ensures
            exact(ar) ==> v == self.normalize_of(ar),
    {
        Vector {
            x: ar.quotient(self.x, self.magnitude(ar)),
            y: ar.quotient(self.y, self.magnitude(ar)),
            z: ar.quotient(self.z, self.magnitude(ar)),
        }
    }

    /// `x * x' + y * y' + z * z'`, summed from the left.
    pub open spec fn dot_of<A: Arithmetic>(self, other: Vector, ar: &A) -> Scalar {
        sum_of(
            ar,
            sum_of(ar, product_of(ar, self.x, other.x), product_of(ar, self.y, other.y)),
            product_of(ar, self.z, other.z),
        )
    }

    /// The dot product.
    pub fn dot<A: Arithmetic>(&self, other: &Vector, ar: &A) -> (d: Scalar)
        ensures
            exact(ar) ==> d == self.dot_of(*other, ar),
    {
        let xx = ar.product(self.x, other.x);
        let yy = ar.product(self.y, other.y);
        let zz = ar.product(self.z, other.z);
        ar.sum(ar.sum(xx, yy), zz)
    }

    /// `(y * z' - z * y', z * x' - x * z', x * y' - y * x')`.
    pub open spec fn cross_of<A: Arithmetic>(self, other: Vector, ar: &A) -> Vector {
        Vector {
            x: difference_of(ar, product_of(ar, self.y, other.z), product_of(ar, self.z, other.y)),
            y: difference_of(ar, product_of(ar, self.z, other.x), product_of(ar, self.x, other.z)),
            z: difference_of(ar, product_of(ar, self.x, other.y), product_of(ar, self.y, other.x)),
        }
    }

    /// The cross product.
    pub fn cross<A: Arithmetic>(&self, other: &Vector, ar: &A) -> (v: Vector)
        ensures
            exact(ar) ==> v == self.cross_of(*other, ar),
    {
        Vector {
            x: ar.difference(ar.product(self.y, other.z), ar.product(self.z, other.y)),
            y: ar.difference(ar.product(self.z, other.x), ar.product(self.x, other.z)),
            z: ar.difference(ar.product(self.x, other.y), ar.product(self.y, other.x)),
        }
    }

    /// `self - normal * (2 * (self . normal))`.
    pub open spec fn reflect_of<A: Arithmetic>(self, normal: Vector, ar: &A) -> Vector {
        self.minus_of(
            normal.times_of(product_of(ar, Scalar { bits: 0x4000_0000 }, self.dot_of(normal, ar)), ar),
            ar,
        )
    }

    /// `self` mirrored at the surface whose normal is `normal`.
    pub fn reflect<A: Arithmetic>(&self, normal: &Vector, ar: &A) -> (v: Vector)
        ensures
            exact(ar) ==> v == self.reflect_of(*normal, ar),
    {
        let twice = ar.product(Scalar::two(), self.dot(normal, ar));
        self.minus(normal.times(twice, ar), ar)
    }

    /// Whether every coordinate of `self` counts as equal to that of
    /// `other`, the homogeneous ones too.
    pub open spec fn approx_eq_of<A: Arithmetic>(self, other: Vector, ar: &A) -> bool {
        &&& close_of(self.x, other.x, ar)
        &&& close_of(self.y, other.y, ar)
        &&& close_of(self.z, other.z, ar)
        &&& close_of(self.weight(), other.weight(), ar)
    }

    /// Whether `self` and `other` count as the same direction.
    pub fn approx_eq<A: Arithmetic>(&self, other: &Vector, ar: &A) -> (e: bool)
        ensures
            exact(ar) ==> e == self.approx_eq_of(*other, ar),
    {
        close(self.x, other.x, ar) && close(self.y, other.y, ar) && close(self.z, other.z, ar)
            && close(self.w(), other.w(), ar)
    }
}

impl core::ops::Neg for Point {
    type Output = Point;

    fn neg(self) -> (p: Point) {
        Point { x: self.x.neg(), y: self.y.neg(), z: self.z.neg() }
    }
}

impl vstd::std_specs::ops::NegSpecImpl for Point {
    open spec fn obeys_neg_spec() -> bool {
        true
    }

    open spec fn neg_req(self) -> bool {
        true
    }

    open spec fn neg_spec(self) -> Point {
        self.negated()
    }
}

impl core::ops::Neg for Vector {
    type Output = Vector;

    fn neg(self) -> (v: Vector) {
        Vector { x: self.x.neg(), y: self.y.neg(), z: self.z.neg() }
    }
}

impl vstd::std_specs::ops::NegSpecImpl for Vector {
    open spec fn obeys_neg_spec() -> bool {
        true
    }

    open spec fn neg_req(self) -> bool {
        true
    }

    open spec fn neg_spec(self) -> Vector {
        self.negated()
    }
}

impl Default for Point {
    /// The origin.
    fn default() -> (p: Point)
        ensures
            p == (Point { x: Scalar { bits: 0 }, y: Scalar { bits: 0 }, z: Scalar { bits: 0 } }),
    {
        Point { x: Scalar::zero(), y: Scalar::zero(), z: Scalar::zero() }
    }
}

impl Default for Vector {
    /// The direction of no length.
    fn default() -> (v: Vector)
        ensures
            v == (Vector { x: Scalar { bits: 0 }, y: Scalar { bits: 0 }, z: Scalar { bits: 0 } }),
    {
        Vector { x: Scalar::zero(), y: Scalar::zero(), z: Scalar::zero() }
    }
}

impl Color {
    pub fn new(r: Scalar, g: Scalar, b: Scalar) -> (c: Color)
        ensures
            c.r == r,
            c.g == g,
            c.b == b,
    {
        Color { r, g, b }
    }

    /// No light at all: positive zero in every channel.
    pub open spec fn dark() -> Color {
        Color { r: Scalar { bits: 0 }, g: Scalar { bits: 0 }, b: Scalar { bits: 0 } }
    }

    /// No light at all.
    pub fn black() -> (c: Color)
        ensures
            c == Color::dark(),
    {
        Color { r: Scalar::zero(), g: Scalar::zero(), b: Scalar::zero() }
    }

    /// Full light in every channel.
    pub fn white() -> (c: Color)
        ensures
            c.r.bits == 0x3f80_0000,
            c.g.bits == 0x3f80_0000,
            c.b.bits == 0x3f80_0000,
    {
        Color { r: Scalar::one(), g: Scalar::one(), b: Scalar::one() }
    }

    /// Each channel times `rhs`.
    pub open spec fn times_of<A: Arithmetic>(self, rhs: Scalar, ar: &A) -> Color {
        Color {
            r: product_of(ar, self.r, rhs),
            g: product_of(ar, self.g, rhs),
            b: product_of(ar, self.b, rhs),
        }
    }

    /// Each channel multiplied by `rhs`.
    pub fn times<A: Arithmetic>(self, rhs: Scalar, ar: &A) -> (c: Color)
        ensures
            exact(ar) ==> c == self.times_of(rhs, ar),
    {
        Color { r: ar.product(self.r, rhs), g: ar.product(self.g, rhs), b: ar.product(self.b, rhs) }
    }

    /// Each channel times the same channel of `rhs`.
    pub open spec fn blend_of<A: Arithmetic>(self, rhs: Color, ar: &A) -> Color {
        Color {
            r: product_of(ar, self.r, rhs.r),
            g: product_of(ar, self.g, rhs.g),
            b: product_of(ar, self.b, rhs.b),
        }
    }

    /// Each channel multiplied by the same channel of `rhs`.
    pub fn blend<A: Arithmetic>(self, rhs: Color, ar: &A) -> (c: Color)
        ensures
            exact(ar) ==> c == self.blend_of(rhs, ar),
    {
        Color { r: ar.product(self.r, rhs.r), g: ar.product(self.g, rhs.g), b: ar.product(self.b, rhs.b) }
    }

    /// `self + rhs`, channel by channel.
    pub open spec fn plus_of<A: Arithmetic>(self, rhs: Color, ar: &A) -> Color {
        Color { r: sum_of(ar, self.r, rhs.r), g: sum_of(ar, self.g, rhs.g), b: sum_of(ar, self.b, rhs.b) }
    }

    pub fn plus<A: Arithmetic>(self, rhs: Color, ar: &A) -> (c: Color)
        ensures
            exact(ar) ==> c == self.plus_of(rhs, ar),
    {
        Color { r: ar.sum(self.r, rhs.r), g: ar.sum(self.g, rhs.g), b: ar.sum(self.b, rhs.b) }
    }

    /// `self - rhs`, channel by channel.
    pub open spec fn minus_of<A: Arithmetic>(self, rhs: Color, ar: &A) -> Color {
        Color {
            r: difference_of(ar, self.r, rhs.r),
            g: difference_of(ar, self.g, rhs.g),
            b: difference_of(ar, self.b, rhs.b),
        }
    }

    pub fn minus<A: Arithmetic>(self, rhs: Color, ar: &A) -> (c: Color)
        ensures
            exact(ar) ==> c == self.minus_of(rhs, ar),
    {
        Color {
            r: ar.difference(self.r, rhs.r),
            g: ar.difference(self.g, rhs.g),
            b: ar.difference(self.b, rhs.b),
        }
    }

    /// Whether every channel of `self` counts as equal to that of `other`.
    pub open spec fn approx_eq_of<A: Arithmetic>(self, other: Color, ar: &A) -> bool {
        &&& close_of(self.r, other.r, ar)
        &&& close_of(self.g, other.g, ar)
        &&& close_of(self.b, other.b, ar)
    }

    /// Whether `self` and `other` count as the same colour.
    pub fn approx_eq<A: Arithmetic>(&self, other: &Color, ar: &A) -> (e: bool)
        ensures
            exact(ar) ==> e == self.approx_eq_of(*other, ar),
    {
        close(self.r, other.r, ar) && close(self.g, other.g, ar) && close(self.b, other.b, ar)
    }
}

} // verus!
