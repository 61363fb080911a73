use vstd::prelude::*;
use crate::arithmetic::{
    difference_of,
    exact,
    powi_of,
    product_of,
    quotient_of,
    sqrt_of,
    sum_of,
    Arithmetic,
};
use crate::intersections::{Intersection, Intersections};
use crate::ledger::{ordered, sorted};
use crate::materials::Material;
use crate::matrices::{
    apply_to_vector,
    is_identity,
    is_inverse_of,
    transpose,
    transposed,
    Matrix,
};
use crate::rays::Ray;
use crate::scalar::Scalar;
use crate::shapes::{HasMaterial, HasTransform, Intersects, TransformData};
use crate::tuples::{Point, Vector};

verus! {

/// A sphere. In its own space it has radius one and its centre at `origin`.
#[derive(Debug, Clone, Copy)]
pub struct Sphere {
    pub origin: Point,
    pub radius: Scalar,
    pub transform: TransformData,
    pub material: Material,
}

impl Sphere {
    /// A sphere with the matrix `transform` and no inverse kept: until
    /// `set_transform` is called it is met as if it lay at the identity.
    pub fn new(origin: Point, radius: Scalar, transform: Matrix<4, 4>, material: Material) -> (s:
        Self)
        ensures
            s.origin == origin,
            s.radius == radius,
            s.transform.transform_of() == transform,
            s.transform.inverse_of().is_none(),
            s.material == material,
    {
        Sphere { origin, radius, transform: TransformData::new(transform, None), material }
    }

    /// The sphere of radius one about the origin, at the identity, of the
    /// standard material.
    pub fn unit() -> (s: Self)
        ensures
            s.origin == (Point { x: Scalar { bits: 0 }, y: Scalar { bits: 0 }, z: Scalar { bits: 0 } }),
            s.radius == (Scalar { bits: 0x3f80_0000 }),
            is_identity(s.transform.transform_of()),
            s.transform.inverse_of().is_none(),
            s.material == Material::standard(),
    {
        Sphere::new(Point::default(), Scalar::one(), Matrix::identity(), Material::default())
    }

    /// Where `ray` meets the sphere: where the ray, mapped by the inverse
    /// kept if there is one, meets the sphere in its own space.
    pub open spec fn meets<A: Arithmetic>(&self, ray: Ray, object_id: usize, ar: &A) -> Seq<
        Intersection,
    > {
        match self.transform.inverse_of() {
            None => self.local_meets(ray, object_id, ar),
            Some(m) => self.local_meets(ray.transformed_by(m, ar), object_id, ar),
        }
    }

    /// Where `ray` meets the sphere, each place marked with `object_id`:
    /// nowhere, or in two places of which the nearer comes first.
    pub fn intersect<A: Arithmetic>(&self, ray: &Ray, object_id: usize, ar: &A) -> (xs:
        Intersections)
        ensures
            xs@.len() == 0 || xs@.len() == 2,
            forall|i: int| 0 <= i < xs@.len() ==> (#[trigger] xs@[i]).object_id == object_id,
            ordered(xs@),
            xs@.len() == 2 && !xs@[0].t.nan() && !xs@[1].t.nan() ==> xs@[0].t.at_most(xs@[1].t),
            exact(ar) ==> xs@ == self.meets(*ray, object_id, ar),
    {
        let xs = match self.transform.get_inverse_transform() {
            None => self.local_intersect(ray, object_id, ar),
            Some(m) => {
                let ray2 = ray.transform(m, ar);
                self.local_intersect(&ray2, object_id, ar)
            },
        };
        let _ = xs.count();
        xs
    }

    /// Stores `transform`, and beside it its inverse, or none where it has
    /// none.
    pub fn set_transform<A: Arithmetic>(&mut self, transform: &Matrix<4, 4>, ar: &A)
        ensures
            final(self).transform.transform_of() == *transform,
            exact(ar) ==> is_inverse_of(final(self).transform.inverse_of(), *transform, ar),
            final(self).origin == old(self).origin,
            final(self).radius == old(self).radius,
            final(self).material == old(self).material,
    {
        self.transform.set_transform(*transform, ar);
    }

    /// Where no inverse is kept, the direction from the centre to the point,
    /// at length one. Else the direction from the origin to the point as the
    /// inverse maps it, mapped back by the transposed inverse and brought to
    /// length one.
    pub open spec fn normal_of<A: Arithmetic>(&self, world_point: Point, ar: &A) -> Vector {
        match self.transform.inverse_of() {
            None => world_point.minus_of(self.origin, ar).normalize_of(ar),
            Some(inv) => {
                let object_point = inv.times_point_of(world_point, ar);
                let object_normal = object_point.minus_of(
                    Point { x: Scalar { bits: 0 }, y: Scalar { bits: 0 }, z: Scalar { bits: 0 } },
                    ar,
                );
                apply_to_vector(transposed(inv.entries()), object_normal, ar).normalize_of(ar)
            },
        }
    }

    /// The direction that stands on the sphere at `world_point`, at length
    /// one.
    pub fn normal_at<A: Arithmetic>(&self, world_point: &Point, ar: &A) -> (n: Vector)
        ensures
            exact(ar) ==> n == self.normal_of(*world_point, ar),
    {
        match self.transform.get_inverse_transform() {
            None => world_point.minus(self.origin, ar).normalize(ar),
            Some(inv) => {
                let object_point = inv.times_point(*world_point, ar);
                let object_normal = object_point.minus(Point::default(), ar);
                let turned = transpose(&inv);
                let world_normal = turned.times_vector(object_normal, ar);
                proof {
                    assert forall|r: int, c: int| 0 <= r < 4 && 0 <= c < 4 implies #[trigger] turned.at(
                        r,
                        c,
                    ) == transposed(inv.entries())(r, c) by {
                        assert(turned.at(r, c) == inv.at(c, r));
                    }
                    assert(apply_to_vector(turned.entries(), object_normal, ar) == apply_to_vector(
                        transposed(inv.entries()),
                        object_normal,
                        ar,
                    ));
                }
                world_normal.normalize(ar)
            },
        }
    }

    pub fn set_material(&mut self, material: &Material)
        ensures
            final(self).material == *material,
            final(self).origin == old(self).origin,
            final(self).radius == old(self).radius,
            final(self).transform == old(self).transform,
    {
        self.material = *material;
    }
}

impl HasMaterial for Sphere {
    open spec fn material_of(&self) -> Material {
        self.material
    }

    fn set_material(&mut self, material: Material) {
        self.material = material;
    }

    fn get_material(&self) -> (m: Material) {
        self.material
    }
}

impl Sphere {
    /// The discriminant of the ray's meeting with the sphere, and the two
    /// numbers `-b` and `2a` from which the roots are made. With `d` the
    /// direction from the centre to the ray's origin, `a` is the ray's
    /// direction times itself, `b` twice the direction times `d`, `c` the
    /// product of `d` with itself less one, and the discriminant
    /// `b^2 - 4 * a * c`.
    pub open spec fn quadratic<A: Arithmetic>(&self, ray: Ray, ar: &A) -> (Scalar, Scalar, Scalar) {
        let d = ray.origin.minus_of(self.origin, ar);
        let a = ray.direction.dot_of(ray.direction, ar);
        let b = product_of(ar, Scalar { bits: 0x4000_0000 }, ray.direction.dot_of(d, ar));
        let c = difference_of(ar, d.dot_of(d, ar), Scalar { bits: 0x3f80_0000 });
        let four_a = product_of(ar, Scalar { bits: 0x4080_0000 }, a);
        let discriminant = difference_of(ar, powi_of(ar, b, 2), product_of(ar, four_a, c));
        (discriminant, b.negated(), product_of(ar, Scalar { bits: 0x4000_0000 }, a))
    }

    /// Nowhere where the discriminant is below zero, and else at
    /// `(-b - root) / 2a` and `(-b + root) / 2a`, the nearer first.
    pub open spec fn local_meets<A: Arithmetic>(&self, ray: Ray, object_id: usize, ar: &A) -> Seq<
        Intersection,
    > {
        let (discriminant, minus_b, twice_a) = self.quadratic(ray, ar);
        if discriminant.below(Scalar { bits: 0 }) {
            Seq::empty()
        } else {
            let root = sqrt_of(ar, discriminant);
            let t1 = quotient_of(ar, difference_of(ar, minus_b, root), twice_a);
            let t2 = quotient_of(ar, sum_of(ar, minus_b, root), twice_a);
            sorted(seq![Intersection { t: t1, object_id }, Intersection { t: t2, object_id }])
        }
    }

    /// The direction from the centre to `point`, at length one.
    pub open spec fn local_normal<A: Arithmetic>(&self, point: Point, ar: &A) -> Vector {
        point.minus_of(self.origin, ar).normalize_of(ar)
    }
}

/// What a sphere returns comes nearest first: a ray meets it nowhere or in
/// two places, and of two roots that are numbers the first is at most the
/// second.
pub proof fn lemma_roots_ascend<A: Arithmetic>(sphere: Sphere, ray: Ray, object_id: usize, ar: &A)
    ensures
        ({
            let xs = sphere.local_meets(ray, object_id, ar);
            &&& xs.len() == 0 || xs.len() == 2
            &&& ordered(xs)
            &&& xs.len() == 2 && !xs[0].t.nan() && !xs[1].t.nan() ==> xs[0].t.at_most(xs[1].t)
        }),
{
    let xs = sphere.local_meets(ray, object_id, ar);
    if xs.len() > 0 {
        let (discriminant, minus_b, twice_a) = sphere.quadratic(ray, ar);
        let root = sqrt_of(ar, discriminant);
        let t1 = quotient_of(ar, difference_of(ar, minus_b, root), twice_a);
        let t2 = quotient_of(ar, sum_of(ar, minus_b, root), twice_a);
        let found = seq![Intersection { t: t1, object_id }, Intersection { t: t2, object_id }];
        crate::ledger::lemma_sorted(found);
        crate::ledger::lemma_ordered_ascends(xs, 0, 1);
    }
}

impl Intersects for Sphere {
    fn local_intersect<A: Arithmetic>(&self, ray: &Ray, object_id: usize, ar: &A) -> (xs:
        Intersections)
        ensures
            xs@.len() == 0 || xs@.len() == 2,
            ordered(xs@),
            xs@.len() == 2 && !xs@[0].t.nan() && !xs@[1].t.nan() ==> xs@[0].t.at_most(xs@[1].t),
            exact(ar) ==> xs@ == self.local_meets(*ray, object_id, ar),
    {
        let sphere_to_ray = ray.origin.minus(self.origin, ar);
        let a = ray.direction.dot(&ray.direction, ar);
        let b = ar.product(Scalar::two(), ray.direction.dot(&sphere_to_ray, ar));
        let c = ar.difference(sphere_to_ray.dot(&sphere_to_ray, ar), Scalar::one());
        let four = Scalar::from_bits(0x4080_0000);
        let discriminant = ar.difference(ar.powi(b, 2), ar.product(ar.product(four, a), c));
        if discriminant.is_negative() {
            return Intersections::new(Vec::new());
        }
        let root = ar.sqrt(discriminant);
        let twice_a = ar.product(Scalar::two(), a);
        let t1 = ar.quotient(ar.difference(b.neg(), root), twice_a);
        let root = ar.sqrt(discriminant);
        let twice_a = ar.product(Scalar::two(), a);
        let t2 = ar.quotient(ar.sum(b.neg(), root), twice_a);
        let mut found: Vec<Intersection> = Vec::new();
        found.push(Intersection::new(t1, object_id));
        found.push(Intersection::new(t2, object_id));
        let xs = Intersections::new(found);
        proof {
            crate::ledger::lemma_sorted_members(found@);
            crate::ledger::lemma_ordered_ascends(xs@, 0, 1);
            assert(found@ =~= seq![Intersection { t: t1, object_id }, Intersection { t: t2, object_id }]);
        }
        xs
    }

    fn local_normal_at<A: Arithmetic>(&self, point: &Point, ar: &A) -> (n: Vector)
        ensures
            exact(ar) ==> n == self.local_normal(*point, ar),
    {
        point.minus(self.origin, ar).normalize(ar)
    }
}

} // verus!
