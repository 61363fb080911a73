use vstd::prelude::*;
use crate::arithmetic::{
    difference_of,
    exact,
    floor_of,
    powi_of,
    remainder_of,
    sqrt_of,
    sum_of,
    Arithmetic,
};
use crate::matrices::{is_identity, Matrix};
use crate::scalar::Scalar;
use crate::shapes::{HasTransform, Shape, TransformData};
use crate::tuples::{Color, Point};

verus! {

/// Two colours that change with every step in x, y and z.
#[derive(Debug, Clone, Copy)]
pub struct CheckerPattern {
    pub a: Color,
    pub b: Color,
    pub transform: TransformData,
}

/// Two colours in rings about the y axis.
#[derive(Debug, Clone, Copy)]
pub struct RingPattern {
    pub a: Color,
    pub b: Color,
    pub transform: TransformData,
}

/// One colour that turns into another along x.
#[derive(Debug, Clone, Copy)]
pub struct GradientPattern {
    pub a: Color,
    pub b: Color,
    pub transform: TransformData,
}

/// Two colours in stripes across x.
#[derive(Debug, Clone, Copy)]
pub struct StripePattern {
    pub a: Color,
    pub b: Color,
    pub transform: TransformData,
}

/// The pattern whose colour at a point is the point.
#[derive(Debug, Clone, Copy)]
pub struct TestPattern {
    pub transform: TransformData,
}

impl TestPattern {
    pub fn color(&self, point: Point) -> (c: Color)
        ensures
            c.r == point.x,
            c.g == point.y,
            c.b == point.z,
    {
        Color { r: point.x, g: point.y, b: point.z }
    }
}

/// A way to colour a surface point by point.
#[derive(Debug, Clone, Copy)]
pub enum Pattern {
    Test(TestPattern),
    Stripe(StripePattern),
    Gradient(GradientPattern),
    Ring(RingPattern),
    Checker(CheckerPattern),
}

impl HasTransform for Pattern {
    open spec fn transform_of(&self) -> Matrix<4, 4> {
        match self {
            Pattern::Test(test_pattern) => test_pattern.transform.transform_of(),
            Pattern::Stripe(stripe_pattern) => stripe_pattern.transform.transform_of(),
            Pattern::Gradient(gradient_pattern) => gradient_pattern.transform.transform_of(),
            Pattern::Ring(ring_pattern) => ring_pattern.transform.transform_of(),
            Pattern::Checker(checker_pattern) => checker_pattern.transform.transform_of(),
        }
    }

    open spec fn inverse_of(&self) -> Option<Matrix<4, 4>> {
        match self {
            Pattern::Test(test_pattern) => test_pattern.transform.inverse_of(),
            Pattern::Stripe(stripe_pattern) => stripe_pattern.transform.inverse_of(),
            Pattern::Gradient(gradient_pattern) => gradient_pattern.transform.inverse_of(),
            Pattern::Ring(ring_pattern) => ring_pattern.transform.inverse_of(),
            Pattern::Checker(checker_pattern) => checker_pattern.transform.inverse_of(),
        }
    }

    fn set_transform<A: Arithmetic>(&mut self, transform: Matrix<4, 4>, ar: &A)
        ensures
            final(self).colors() == old(self).colors(),
    {
        match self {
            Pattern::Test(test_pattern) => test_pattern.transform.set_transform(transform, ar),
            Pattern::Stripe(stripe_pattern) => stripe_pattern.transform.set_transform(transform, ar),
            Pattern::Gradient(gradient_pattern) => {
                gradient_pattern.transform.set_transform(transform, ar)
            },
            Pattern::Ring(ring_pattern) => ring_pattern.transform.set_transform(transform, ar),
            Pattern::Checker(checker_pattern) => checker_pattern.transform.set_transform(
                transform,
                ar,
            ),
        }
    }

    fn get_transform(&self) -> (m: Matrix<4, 4>) {
        match self {
            Pattern::Test(test_pattern) => test_pattern.transform.get_transform(),
            Pattern::Stripe(stripe_pattern) => stripe_pattern.transform.get_transform(),
            Pattern::Gradient(gradient_pattern) => gradient_pattern.transform.get_transform(),
            Pattern::Ring(ring_pattern) => ring_pattern.transform.get_transform(),
            Pattern::Checker(checker_pattern) => checker_pattern.transform.get_transform(),
        }
    }

    fn get_inverse_transform(&self) -> (m: Option<Matrix<4, 4>>) {
        match self {
            Pattern::Test(test_pattern) => test_pattern.transform.get_inverse_transform(),
            Pattern::Stripe(stripe_pattern) => stripe_pattern.transform.get_inverse_transform(),
            Pattern::Gradient(gradient_pattern) => gradient_pattern.transform.get_inverse_transform(),
            Pattern::Ring(ring_pattern) => ring_pattern.transform.get_inverse_transform(),
            Pattern::Checker(checker_pattern) => checker_pattern.transform.get_inverse_transform(),
        }
    }
}

/// Whether the whole number `n` is even: `n % 2 == 0`.
pub open spec fn even_of<A: Arithmetic>(n: Scalar, ar: &A) -> bool {
    remainder_of(ar, n, Scalar { bits: 0x4000_0000 }).magnitude() == 0
}

/// Whether the whole number `n` is even.
pub fn is_even<A: Arithmetic>(n: Scalar, ar: &A) -> (e: bool)
    ensures
        exact(ar) ==> e == even_of(n, ar),
{
    ar.remainder(n, Scalar::two()).is_zero()
}

impl CheckerPattern {
    pub fn new(a: Color, b: Color) -> (p: Self)
        ensures
            p.a == a,
            p.b == b,
            is_identity(p.transform.transform_of()),
            p.transform.inverse_of().is_none(),
    {
        CheckerPattern { a, b, transform: TransformData::new(Matrix::identity(), None) }
    }

    /// `a` where the floors of the three coordinates sum to an even number,
    /// and `b` elsewhere.
    pub open spec fn color_of<A: Arithmetic>(&self, point: Point, ar: &A) -> Color {
        let steps = sum_of(
            ar,
            sum_of(ar, floor_of(ar, point.x), floor_of(ar, point.y)),
            floor_of(ar, point.z),
        );
        if even_of(steps, ar) {
            self.a
        } else {
            self.b
        }
    }

    /// The colour at `point`.
    pub fn color<A: Arithmetic>(&self, point: Point, ar: &A) -> (c: Color)
        ensures
            c == self.a || c == self.b,
            exact(ar) ==> c == self.color_of(point, ar),
    {
        let steps = ar.sum(ar.sum(ar.floor(point.x), ar.floor(point.y)), ar.floor(point.z));
        if is_even(steps, ar) {
            return self.a;
        }
        self.b
    }
}

impl RingPattern {
    pub fn new(a: Color, b: Color) -> (p: Self)
        ensures
            p.a == a,
            p.b == b,
            is_identity(p.transform.transform_of()),
            p.transform.inverse_of().is_none(),
    {
        RingPattern { a, b, transform: TransformData::new(Matrix::identity(), None) }
    }

    /// `a` where the floor of the distance from the y axis is even, and `b`
    /// elsewhere.
    pub open spec fn color_of<A: Arithmetic>(&self, point: Point, ar: &A) -> Color {
        let distance = sqrt_of(ar, sum_of(ar, powi_of(ar, point.x, 2), powi_of(ar, point.z, 2)));
        if even_of(floor_of(ar, distance), ar) {
            self.a
        } else {
            self.b
        }
    }

    /// The colour at `point`.
    pub fn color<A: Arithmetic>(&self, point: Point, ar: &A) -> (c: Color)
        ensures
            c == self.a || c == self.b,
            exact(ar) ==> c == self.color_of(point, ar),
    {
        let distance = ar.sqrt(ar.sum(ar.powi(point.x, 2), ar.powi(point.z, 2)));
        if is_even(ar.floor(distance), ar) {
            return self.a;
        }
        self.b
    }
}

impl GradientPattern {
    pub fn new(a: Color, b: Color) -> (p: Self)
        ensures
            p.a == a,
            p.b == b,
            is_identity(p.transform.transform_of()),
            p.transform.inverse_of().is_none(),
    {
        GradientPattern { a, b, transform: TransformData::new(Matrix::identity(), None) }
    }

    /// `a + (b - a) * (x - floor(x))`.
    pub open spec fn color_of<A: Arithmetic>(&self, point: Point, ar: &A) -> Color {
        let fraction = difference_of(ar, point.x, floor_of(ar, point.x));
        self.a.plus_of(self.b.minus_of(self.a, ar).times_of(fraction, ar), ar)
    }

    /// The colour at `point`.
    pub fn color<A: Arithmetic>(&self, point: Point, ar: &A) -> (c: Color)
        ensures
            exact(ar) ==> c == self.color_of(point, ar),
    {
        let distance = self.b.minus(self.a, ar);
        let fraction = ar.difference(point.x, ar.floor(point.x));
        self.a.plus(distance.times(fraction, ar), ar)
    }
}

impl StripePattern {
    pub fn new(a: Color, b: Color) -> (p: Self)
        ensures
            p.a == a,
            p.b == b,
            is_identity(p.transform.transform_of()),
            p.transform.inverse_of().is_none(),
    {
        StripePattern { a, b, transform: TransformData::new(Matrix::identity(), None) }
    }

    /// `a` where the floor of x is even, and `b` elsewhere.
    pub open spec fn color_of<A: Arithmetic>(&self, point: Point, ar: &A) -> Color {
        if even_of(floor_of(ar, point.x), ar) {
            self.a
        } else {
            self.b
        }
    }

    /// The colour at `point`.
    pub fn color<A: Arithmetic>(&self, point: Point, ar: &A) -> (c: Color)
        ensures
            c == self.a || c == self.b,
            exact(ar) ==> c == self.color_of(point, ar),
    {
        if is_even(ar.floor(point.x), ar) {
            return self.a;
        }
        self.b
    }
}

impl Pattern {
    /// The two colours of a pattern, where it has them.
    pub open spec fn colors(self) -> Option<(Color, Color)> {
        match self {
            Pattern::Test(_) => None,
            Pattern::Stripe(p) => Some((p.a, p.b)),
            Pattern::Gradient(p) => Some((p.a, p.b)),
            Pattern::Ring(p) => Some((p.a, p.b)),
            Pattern::Checker(p) => Some((p.a, p.b)),
        }
    }

    /// A pattern at the identity, with no inverse kept.
    pub open spec fn untouched(self) -> bool {
        is_identity(self.transform_of()) && self.inverse_of().is_none()
    }

    pub fn test_pattern() -> (p: Self)
        ensures
            p is Test,
            p.untouched(),
    {
        Pattern::Test(TestPattern { transform: TransformData::new(Matrix::identity(), None) })
    }

    pub fn stripe_pattern(a: Color, b: Color) -> (p: Self)
        ensures
            p is Stripe,
            p.colors() == Some((a, b)),
            p.untouched(),
    {
        Pattern::Stripe(StripePattern::new(a, b))
    }

    pub fn gradient_pattern(a: Color, b: Color) -> (p: Self)
        ensures
            p is Gradient,
            p.colors() == Some((a, b)),
            p.untouched(),
    {
        Pattern::Gradient(GradientPattern::new(a, b))
    }

    pub fn ring_pattern(a: Color, b: Color) -> (p: Self)
        ensures
            p is Ring,
            p.colors() == Some((a, b)),
            p.untouched(),
    {
        Pattern::Ring(RingPattern::new(a, b))
    }

    pub fn checker_pattern(a: Color, b: Color) -> (p: Self)
        ensures
            p is Checker,
            p.colors() == Some((a, b)),
            p.untouched(),
    {
        Pattern::Checker(CheckerPattern::new(a, b))
    }

    /// The colour of the pattern at `point`, given in the pattern's space.
    pub open spec fn pattern_of<A: Arithmetic>(&self, point: Point, ar: &A) -> Color {
        match self {
            Pattern::Test(test_pattern) => Color { r: point.x, g: point.y, b: point.z },
            Pattern::Stripe(stripe_pattern) => stripe_pattern.color_of(point, ar),
            Pattern::Gradient(gradient_pattern) => gradient_pattern.color_of(point, ar),
            Pattern::Ring(ring_pattern) => ring_pattern.color_of(point, ar),
            Pattern::Checker(checker_pattern) => checker_pattern.color_of(point, ar),
        }
    }

    /// The colour of the pattern on `object` at `world_point`: the point is
    /// taken into the object's space and from there into the pattern's, by
    /// the inverses kept; where none is kept the point stays as it is.
    pub open spec fn pattern_on<A: Arithmetic>(&self, object: Shape, world_point: Point, ar: &A) -> Color {
        let object_point = match object.kept_inverse() {
            None => world_point,
            Some(inverse_transform) => inverse_transform.times_point_of(world_point, ar),
        };
        let pattern_point = match self.inverse_of() {
            None => object_point,
            Some(inverse_transform) => inverse_transform.times_point_of(object_point, ar),
        };
        self.pattern_of(pattern_point, ar)
    }

    /// The colour of the pattern on `object` at `world_point`.
    pub fn pattern_at_shape<A: Arithmetic>(&self, object: &Shape, world_point: Point, ar: &A) -> (c:
        Color)
        ensures
            exact(ar) ==> c == self.pattern_on(*object, world_point, ar),
            (self is Stripe || self is Ring || self is Checker) ==> (c == self.colors().unwrap().0
                || c == self.colors().unwrap().1),
            self is Test && object.kept_inverse().is_none() && self.inverse_of().is_none() ==> c == (
            Color { r: world_point.x, g: world_point.y, b: world_point.z }),
    {
        let object_point = match object.get_inverse_transform() {
            None => world_point,
            Some(inverse_transform) => inverse_transform.times_point(world_point, ar),
        };
        let pattern_point = match self.get_inverse_transform() {
            None => object_point,
            Some(inverse_transform) => inverse_transform.times_point(object_point, ar),
        };
        self.pattern_at(pattern_point, ar)
    }

    /// The colour of the pattern at `point`, given in the pattern's space.
    pub fn pattern_at<A: Arithmetic>(&self, point: Point, ar: &A) -> (c: Color)
        ensures
            exact(ar) ==> c == self.pattern_of(point, ar),
            (self is Stripe || self is Ring || self is Checker) ==> (c == self.colors().unwrap().0
                || c == self.colors().unwrap().1),
            self is Test ==> c == (Color { r: point.x, g: point.y, b: point.z }),
    {
        match self {
            Pattern::Test(test_pattern) => test_pattern.color(point),
            Pattern::Stripe(stripe_pattern) => stripe_pattern.color(point, ar),
            Pattern::Gradient(gradient_pattern) => gradient_pattern.color(point, ar),
            Pattern::Ring(ring_pattern) => ring_pattern.color(point, ar),
            Pattern::Checker(checker_pattern) => checker_pattern.color(point, ar),
        }
    }

    /// The first colour.
    pub fn a(&self) -> (c: Color)
        requires
            !(self is Test),
        ensures
            self.colors() matches Some(p) && p.0 == c,
    {
        match self {
            Pattern::Stripe(stripe_pattern) => stripe_pattern.a,
            Pattern::Gradient(gradient_pattern) => gradient_pattern.a,
            Pattern::Ring(ring_pattern) => ring_pattern.a,
            Pattern::Checker(checker_pattern) => checker_pattern.a,
            Pattern::Test(_) => Color::black(),
        }
    }

    /// The second colour.
    pub fn b(&self) -> (c: Color)
        requires
            !(self is Test),
        ensures
            self.colors() matches Some(p) && p.1 == c,
    {
        match self {
            Pattern::Stripe(stripe_pattern) => stripe_pattern.b,
            Pattern::Gradient(gradient_pattern) => gradient_pattern.b,
            Pattern::Ring(ring_pattern) => ring_pattern.b,
            Pattern::Checker(checker_pattern) => checker_pattern.b,
            Pattern::Test(_) => Color::black(),
        }
    }
}

} // verus!
