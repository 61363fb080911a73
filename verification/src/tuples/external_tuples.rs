use vstd::prelude::*;
use crate::arithmetic::{exact, Arithmetic};
use crate::scalar::Scalar;
use crate::tuples::{
    cross,
    dot,
    magnitude,
    normalize,
    quad_close,
    quad_cross,
    quad_difference,
    quad_divided,
    quad_dot,
    quad_magnitude,
    quad_normalized,
    quad_product,
    quad_reflected,
    quad_scaled,
    quad_sum,
    reflect,
    Quad,
    Tuple,
};

verus! {

/// A tuple with the name of what it stands for.
#[derive(Debug, Copy, Clone)]
pub enum TupleKind {
    Color(Tuple),
    Vector(Tuple),
    Point(Tuple),
}

/// The name that belongs to four numbers: a point where the homogeneous
/// number equals one, a direction where it equals zero, and a colour else.
pub open spec fn named(q: Quad) -> int {
    if q.3.same(Scalar { bits: 0x3f80_0000 }) {
        2
    } else if q.3.same(Scalar { bits: 0 }) {
        1
    } else {
        0
    }
}

/// What can be measured, turned and mirrored as directions are.
pub trait VectorMath {
    fn magnitude<A: Arithmetic>(&self, ar: &A) -> Scalar;

    fn normalize<A: Arithmetic>(&self, ar: &A) -> TupleKind;

    fn dot<A: Arithmetic>(&self, b: &TupleKind, ar: &A) -> Scalar;

    fn cross<A: Arithmetic>(&self, b: &TupleKind, ar: &A) -> TupleKind;

    fn reflect<A: Arithmetic>(&self, normal: &TupleKind, ar: &A) -> TupleKind;
}

impl TupleKind {
    /// The four numbers.
    pub open spec fn quad(self) -> Quad {
        match self {
            TupleKind::Vector(v) => v.quad(),
            TupleKind::Color(c) => c.quad(),
            TupleKind::Point(p) => p.quad(),
        }
    }

    /// The name as a number: 0 for a colour, 1 for a direction, 2 for a point.
    pub open spec fn name(self) -> int {
        match self {
            TupleKind::Color(_) => 0,
            TupleKind::Vector(_) => 1,
            TupleKind::Point(_) => 2,
        }
    }

    /// Whether `self` holds the numbers `q` under the name that belongs to
    /// them.
    pub open spec fn wraps(self, q: Quad) -> bool {
        self.quad() == q && self.name() == named(q)
    }

    /// The colour `(r, g, b)`, with one for the fourth number.
    pub fn color(r: Scalar, g: Scalar, b: Scalar) -> (t: TupleKind)
        ensures
            t is Color,
            t.quad() == (r, g, b, Scalar { bits: 0x3f80_0000 }),
    {
        TupleKind::Color(Tuple::new(r, g, b, Scalar::one()))
    }

    pub fn vector(x: Scalar, y: Scalar, z: Scalar) -> (t: TupleKind)
        ensures
            t is Vector,
            t.quad() == (x, y, z, Scalar { bits: 0 }),
    {
        TupleKind::Vector(Tuple::vector(x, y, z))
    }

    pub fn point(x: Scalar, y: Scalar, z: Scalar) -> (t: TupleKind)
        ensures
            t is Point,
            t.quad() == (x, y, z, Scalar { bits: 0x3f80_0000 }),
    {
        TupleKind::Point(Tuple::point(x, y, z))
    }

    /// The tuple without its name.
    pub fn unwrap(self) -> (t: Tuple)
        ensures
            t.quad() == self.quad(),
            t == match self {
                TupleKind::Vector(v) => v,
                TupleKind::Color(c) => c,
                TupleKind::Point(p) => p,
            },
    {
        match self {
            TupleKind::Vector(v) => v,
            TupleKind::Color(c) => c,
            TupleKind::Point(p) => p,
        }
    }

    /// `t` under the name that belongs to it.
    pub fn wrap(t: Tuple) -> (k: TupleKind)
        ensures
            k.wraps(t.quad()),
            k.unwrap_of() == t,
    {
        if t.is_point() {
            return TupleKind::Point(t);
        }
        if t.is_vector() {
            return TupleKind::Vector(t);
        }
        TupleKind::Color(t)
    }

    /// The tuple without its name.
    pub open spec fn unwrap_of(self) -> Tuple {
        match self {
            TupleKind::Vector(v) => v,
            TupleKind::Color(c) => c,
            TupleKind::Point(p) => p,
        }
    }

    pub fn x(&self) -> (v: Scalar)
        ensures
            v == self.quad().0,
    {
        self.unwrap().x()
    }

    pub fn y(&self) -> (v: Scalar)
        ensures
            v == self.quad().1,
    {
        self.unwrap().y()
    }

    pub fn z(&self) -> (v: Scalar)
        ensures
            v == self.quad().2,
    {
        self.unwrap().z()
    }

    pub fn w(&self) -> (v: Scalar)
        ensures
            v == self.quad().3,
    {
        self.unwrap().w()
    }

    pub fn get(&self, index: usize) -> (v: Scalar)
        requires
            index < 4,
        ensures
            index == 0 ==> v == self.quad().0,
            index == 1 ==> v == self.quad().1,
            index == 2 ==> v == self.quad().2,
            index == 3 ==> v == self.quad().3,
    {
        self.unwrap().get(index)
    }

    /// Leaves `self` as it is: the number is put into a copy of the tuple,
    /// which is gone when the call ends.
    pub fn set(&mut self, index: usize, value: Scalar)
        requires
            index < 4,
        ensures
            *final(self) == *old(self),
    {
        let mut copy = self.unwrap();
        copy.set(index, value);
    }

    pub fn is_point(&self) -> (b: bool)
        ensures
            b == (self is Point),
    {
        matches!(self, TupleKind::Point(_))
    }

    pub fn is_vector(&self) -> (b: bool)
        ensures
            b == (self is Vector),
    {
        matches!(self, TupleKind::Vector(_))
    }

    /// Whether the numbers of `self` count as equal to those of `other`,
    /// whatever the two are called.
    pub fn approx_eq<A: Arithmetic>(&self, other: &TupleKind, ar: &A) -> (e: bool)
        ensures
            exact(ar) ==> e == quad_close(self.quad(), other.quad(), ar),
    {
        self.unwrap().approx_eq(&other.unwrap(), ar)
    }

    pub fn plus<A: Arithmetic>(self, rhs: TupleKind, ar: &A) -> (k: TupleKind)
        ensures
            exact(ar) ==> k.wraps(quad_sum(self.quad(), rhs.quad(), ar)),
    {
        let result = self.unwrap().plus(rhs.unwrap(), ar);
        TupleKind::wrap(result)
    }

    pub fn minus<A: Arithmetic>(self, rhs: TupleKind, ar: &A) -> (k: TupleKind)
        ensures
            exact(ar) ==> k.wraps(quad_difference(self.quad(), rhs.quad(), ar)),
    {
        let result = self.unwrap().minus(rhs.unwrap(), ar);
        TupleKind::wrap(result)
    }

    pub fn neg<A: Arithmetic>(self, ar: &A) -> (k: TupleKind)
        ensures
            exact(ar) ==> k.wraps(quad_scaled(self.quad(), Scalar { bits: 0xbf80_0000 }, ar)),
    {
        let result = self.unwrap().neg(ar);
        TupleKind::wrap(result)
    }

    pub fn times<A: Arithmetic>(self, rhs: Scalar, ar: &A) -> (k: TupleKind)
        ensures
            exact(ar) ==> k.wraps(quad_scaled(self.quad(), rhs, ar)),
    {
        let result = self.unwrap().times(rhs, ar);
        TupleKind::wrap(result)
    }

    pub fn blend<A: Arithmetic>(self, rhs: TupleKind, ar: &A) -> (k: TupleKind)
        ensures
            exact(ar) ==> k.wraps(quad_product(self.quad(), rhs.quad(), ar)),
    {
        let result = self.unwrap().blend(rhs.unwrap(), ar);
        TupleKind::wrap(result)
    }

    pub fn divided_by<A: Arithmetic>(self, rhs: Scalar, ar: &A) -> (k: TupleKind)
        ensures
            exact(ar) ==> k.wraps(quad_divided(self.quad(), rhs, ar)),
    {
        let result = self.unwrap().divided_by(rhs, ar);
        TupleKind::wrap(result)
    }
}

impl VectorMath for TupleKind {
    fn magnitude<A: Arithmetic>(&self, ar: &A) -> (m: Scalar)
        ensures
            exact(ar) ==> m == quad_magnitude(self.quad(), ar),
    {
        magnitude(&self.unwrap(), ar)
    }

    fn normalize<A: Arithmetic>(&self, ar: &A) -> (k: TupleKind)
        ensures
            exact(ar) ==> k.wraps(quad_normalized(self.quad(), ar)),
    {
        TupleKind::wrap(normalize(&self.unwrap(), ar))
    }

    fn dot<A: Arithmetic>(&self, b: &TupleKind, ar: &A) -> (d: Scalar)
        ensures
            exact(ar) ==> d == quad_dot(self.quad(), b.quad(), ar),
    {
        dot(&self.unwrap(), &b.unwrap(), ar)
    }

    fn cross<A: Arithmetic>(&self, b: &TupleKind, ar: &A) -> (k: TupleKind)
        ensures
            exact(ar) ==> k.wraps(quad_cross(self.quad(), b.quad(), ar)),
    {
        TupleKind::wrap(cross(&self.unwrap(), &b.unwrap(), ar))
    }

    fn reflect<A: Arithmetic>(&self, normal: &TupleKind, ar: &A) -> (k: TupleKind)
        ensures
            exact(ar) ==> k.wraps(quad_reflected(self.quad(), normal.quad(), ar)),
    {
        TupleKind::wrap(reflect(&self.unwrap(), &normal.unwrap(), ar))
    }
}

} // verus!
