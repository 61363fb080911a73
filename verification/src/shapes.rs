use vstd::prelude::*;
use crate::arithmetic::{exact, Arithmetic};
use crate::intersections::{Intersection, Intersections};
use crate::materials::Material;
use crate::matrices::{
    apply_to_point,
    apply_to_vector,
    identity_entries,
    inverse,
    is_identity,
    is_inverse_of,
    transpose,
    transposed,
    Entries,
    Matrix,
};
use crate::planes::Plane;
use crate::rays::Ray;
use crate::scalar::Scalar;
use crate::spheres::Sphere;
use crate::tuples::{Point, Vector};

verus! {

/// What has a place in space: a matrix from its own space to the space
/// around it, and what was computed as that matrix's inverse.
pub trait HasTransform {
    /// The matrix last set.
    spec fn transform_of(&self) -> Matrix<4, 4>;

    /// The inverse that is kept beside the matrix, if there is one.
    spec fn inverse_of(&self) -> Option<Matrix<4, 4>>;

    /// Stores `transform`, and beside it its inverse, or none where it has
    /// none. What was stored before is gone.
    fn set_transform<A: Arithmetic>(&mut self, transform: Matrix<4, 4>, ar: &A)
        ensures
            final(self).transform_of() == transform,
            exact(ar) ==> is_inverse_of(final(self).inverse_of(), transform, ar),
    ;

    fn get_transform(&self) -> (m: Matrix<4, 4>)
        ensures
            m == self.transform_of(),
    ;

    fn get_inverse_transform(&self) -> (m: Option<Matrix<4, 4>>)
        ensures
            m == self.inverse_of(),
    ;
}

/// Whether `t` is as `set_transform` leaves it when called with `m` and
/// `ar`: it holds `m`, and beside it, where `ar` is exact, what inverting
/// `m` gives.
pub open spec fn holds_transform<T: HasTransform, A: Arithmetic>(t: &T, m: Matrix<4, 4>, ar: &A) -> bool {
    t.transform_of() == m && (exact(ar) ==> is_inverse_of(t.inverse_of(), m, ar))
}

/// Setting a transform twice is setting it once: with an exact arithmetic
/// the inverse kept is a function of the matrix and not of what was set
/// before, so that whatever was set with the same matrix, once or again,
/// keeps the same inverse.
pub proof fn lemma_inverse_follows_matrix<T: HasTransform, A: Arithmetic>(
    once: &T,
    again: &T,
    m: Matrix<4, 4>,
    ar: &A,
)
    requires
        exact(ar),
        holds_transform(once, m, ar),
        holds_transform(again, m, ar),
    ensures
        once.inverse_of() == again.inverse_of(),
        once.transform_of() == again.transform_of(),
{
    crate::matrices::lemma_inverse_is_determined(once.inverse_of(), again.inverse_of(), m, ar);
}

/// A matrix with its inverse kept beside it.
#[derive(Clone, Copy, Debug)]
pub struct TransformData {
    transform: Matrix<4, 4>,
    inverse_transform: Option<Matrix<4, 4>>,
}

impl TransformData {
    pub fn new(transform: Matrix<4, 4>, inverse_transform: Option<Matrix<4, 4>>) -> (t: Self)
        ensures
            t.transform_of() == transform,
            t.inverse_of() == inverse_transform,
    {
        TransformData { transform, inverse_transform }
    }

}

impl Default for TransformData {
    /// The identity, with no inverse kept.
    fn default() -> (t: Self)
        ensures
            is_identity(t.transform_of()),
            t.inverse_of().is_none(),
    {
        TransformData { transform: Matrix::identity(), inverse_transform: None }
    }
}

impl HasTransform for TransformData {
    closed spec fn transform_of(&self) -> Matrix<4, 4> {
        self.transform
    }

    closed spec fn inverse_of(&self) -> Option<Matrix<4, 4>> {
        self.inverse_transform
    }

    fn set_transform<A: Arithmetic>(&mut self, transform: Matrix<4, 4>, ar: &A) {
        self.transform = transform;
        self.inverse_transform = inverse(&transform, ar);
    }

    fn get_transform(&self) -> (m: Matrix<4, 4>) {
        self.transform
    }

    fn get_inverse_transform(&self) -> (m: Option<Matrix<4, 4>>) {
        self.inverse_transform
    }
}

/// What has a surface.
pub trait HasMaterial {
    /// The material last set.
    spec fn material_of(&self) -> Material;

    fn set_material(&mut self, material: Material)
        ensures
            final(self).material_of() == material,
    ;

    fn get_material(&self) -> (m: Material)
        ensures
            m == self.material_of(),
    ;
}

/// A shape as it lies in its own space, before any transform.
pub trait Intersects: HasMaterial {
    /// Where `ray`, given in the shape's own space, meets the shape: at most
    /// two places, each marked with `object_id`.
    fn local_intersect<A: Arithmetic>(&self, ray: &Ray, object_id: usize, ar: &A) -> (xs:
        Intersections)
        ensures
            xs@.len() <= 2,
            forall|i: int| 0 <= i < xs@.len() ==> (#[trigger] xs@[i]).object_id == object_id,
    ;

    /// The direction that stands on the shape at `point`, both in the
    /// shape's own space.
    fn local_normal_at<A: Arithmetic>(&self, point: &Point, ar: &A) -> (n: Vector);
}

/// A shape without a surface of its own: no ray meets it.
#[derive(Debug, Clone, Copy)]
pub struct TestShape {
    pub transform: TransformData,
    pub material: Material,
}

impl Default for TestShape {
    /// At the identity, of the standard material.
    fn default() -> (s: TestShape)
        ensures
            is_identity(s.transform.transform_of()),
            s.transform.inverse_of().is_none(),
            s.material == Material::standard(),
    {
        TestShape { transform: TransformData::default(), material: Material::default() }
    }
}

impl HasMaterial for TestShape {
    open spec fn material_of(&self) -> Material {
        self.material
    }

    fn set_material(&mut self, material: Material)
        ensures
            final(self).transform == old(self).transform,
    {
        self.material = material;
    }

    fn get_material(&self) -> (m: Material) {
        self.material
    }
}

impl TestShape {
    /// No ray meets the shape.
    pub open spec fn local_meets<A: Arithmetic>(&self, ray: Ray, object_id: usize, ar: &A) -> Seq<
        Intersection,
    > {
        Seq::empty()
    }

    /// The direction from the origin to `point`.
    pub open spec fn local_normal<A: Arithmetic>(&self, point: Point, ar: &A) -> Vector {
        Vector { x: point.x, y: point.y, z: point.z }
    }
}

impl Intersects for TestShape {
    fn local_intersect<A: Arithmetic>(&self, ray: &Ray, object_id: usize, ar: &A) -> (xs:
        Intersections)
        ensures
            xs@.len() == 0,
            xs@ == self.local_meets(*ray, object_id, ar),
    {
        Intersections::new(Vec::new())
    }

    /// The direction from the origin to `point`.
    fn local_normal_at<A: Arithmetic>(&self, point: &Point, ar: &A) -> (n: Vector)
        ensures
            n == self.local_normal(*point, ar),
    {
        Vector { x: point.x, y: point.y, z: point.z }
    }
}

/// The shapes a world can hold.
#[derive(Debug, Clone, Copy)]
pub enum Shape {
    Test(TestShape),
    Sphere(Sphere),
    Plane(Plane),
}

impl HasTransform for Shape {
    open spec fn transform_of(&self) -> Matrix<4, 4> {
        self.matrix()
    }

    open spec fn inverse_of(&self) -> Option<Matrix<4, 4>> {
        self.kept_inverse()
    }

    fn set_transform<A: Arithmetic>(&mut self, transform: Matrix<4, 4>, ar: &A)
        ensures
            final(self).surface() == old(self).surface(),
            final(self).same_kind(*old(self)),
            final(self).centre_and_radius() == old(self).centre_and_radius(),
    {
        match self {
            Shape::Test(test_shape) => test_shape.transform.set_transform(transform, ar),
            Shape::Sphere(sphere) => sphere.transform.set_transform(transform, ar),
            Shape::Plane(plane) => plane.set_transform(transform, ar),
        }
    }

    fn get_transform(&self) -> (m: Matrix<4, 4>) {
        match self {
            Shape::Test(test_shape) => test_shape.transform.get_transform(),
            Shape::Sphere(sphere) => sphere.transform.get_transform(),
            Shape::Plane(plane) => plane.get_transform(),
        }
    }

    fn get_inverse_transform(&self) -> (m: Option<Matrix<4, 4>>) {
        match self {
            Shape::Test(test_shape) => test_shape.transform.get_inverse_transform(),
            Shape::Sphere(sphere) => sphere.transform.get_inverse_transform(),
            Shape::Plane(plane) => plane.get_inverse_transform(),
        }
    }
}

impl HasMaterial for Shape {
    open spec fn material_of(&self) -> Material {
        self.surface()
    }

    fn set_material(&mut self, material: Material)
        ensures
            final(self).matrix() == old(self).matrix(),
            final(self).kept_inverse() == old(self).kept_inverse(),
            final(self).same_kind(*old(self)),
            final(self).centre_and_radius() == old(self).centre_and_radius(),
    {
        match self {
            Shape::Test(test_shape) => test_shape.set_material(material),
            Shape::Sphere(sphere) => sphere.material = material,
            Shape::Plane(plane) => plane.set_material(material),
        }
    }

    fn get_material(&self) -> (m: Material) {
        match self {
            Shape::Test(test_shape) => test_shape.get_material(),
            Shape::Sphere(sphere) => sphere.material,
            Shape::Plane(plane) => plane.get_material(),
        }
    }
}

impl Shape {
    /// The matrix last set.
    pub open spec fn matrix(&self) -> Matrix<4, 4> {
        match self {
            Shape::Test(test_shape) => test_shape.transform.transform_of(),
            Shape::Sphere(sphere) => sphere.transform.transform_of(),
            Shape::Plane(plane) => plane.matrix(),
        }
    }

    /// The inverse kept beside the matrix, if there is one.
    pub open spec fn kept_inverse(&self) -> Option<Matrix<4, 4>> {
        match self {
            Shape::Test(test_shape) => test_shape.transform.inverse_of(),
            Shape::Sphere(sphere) => sphere.transform.inverse_of(),
            Shape::Plane(plane) => plane.kept_inverse(),
        }
    }

    /// The material last set.
    pub open spec fn surface(&self) -> Material {
        match self {
            Shape::Test(test_shape) => test_shape.material,
            Shape::Sphere(sphere) => sphere.material,
            Shape::Plane(plane) => plane.surface(),
        }
    }

    /// The centre and the radius of a sphere, in its own space.
    pub open spec fn centre_and_radius(&self) -> Option<(Point, Scalar)> {
        match self {
            Shape::Sphere(sphere) => Some((sphere.origin, sphere.radius)),
            _ => None,
        }
    }

    /// Whether `self` and `other` are shapes of one kind.
    pub open spec fn same_kind(self, other: Shape) -> bool {
        match self {
            Shape::Test(_) => other is Test,
            Shape::Sphere(_) => other is Sphere,
            Shape::Plane(_) => other is Plane,
        }
    }

    /// A shape at the identity, of the standard material, with no inverse kept.
    pub open spec fn pristine(self) -> bool {
        &&& is_identity(self.matrix())
        &&& self.kept_inverse().is_none()
        &&& self.surface() == Material::standard()
        &&& self is Sphere ==> self.centre_and_radius() == Some(
            (
                Point { x: Scalar { bits: 0 }, y: Scalar { bits: 0 }, z: Scalar { bits: 0 } },
                Scalar { bits: 0x3f80_0000 },
            ),
        )
    }

    /// The shape that no ray meets.
    pub fn test_shape() -> (s: Shape)
        ensures
            s is Test,
            s.pristine(),
    {
        Shape::Test(TestShape::default())
    }

    /// The unit sphere.
    pub fn sphere() -> (s: Shape)
        ensures
            s is Sphere,
            s.pristine(),
    {
        Shape::Sphere(Sphere::unit())
    }

    /// The unit sphere, fully transparent, with the refractive index of glass.
    pub fn glass_sphere() -> (s: Shape)
        ensures
            s is Sphere,
            is_identity(s.matrix()),
            s.kept_inverse().is_none(),
            s.surface() == (Material {
                transparency: Scalar { bits: 0x3f80_0000 },
                refractive_index: Scalar { bits: 0x3fc0_0000 },
                ..Material::standard()
            }),
            s.centre_and_radius() == Some(
                (
                    Point { x: Scalar { bits: 0 }, y: Scalar { bits: 0 }, z: Scalar { bits: 0 } },
                    Scalar { bits: 0x3f80_0000 },
                ),
            ),
    {
        let mut sphere = Shape::Sphere(Sphere::unit());
        let mut glass = Material::default();
        glass.set_transparency(Scalar::one());
        glass.set_refractive_index(Scalar::from_bits(0x3fc0_0000));
        sphere.set_material(glass);
        sphere
    }

    /// The plane through the origin on which the y axis stands.
    pub fn plane() -> (s: Shape)
        ensures
            s is Plane,
            s.pristine(),
    {
        Shape::Plane(Plane::default())
    }

    /// The shape that `shape` makes, moved by `transform` and given `material`.
    pub fn with<F: Fn() -> Shape, A: Arithmetic>(
        shape: F,
        transform: Matrix<4, 4>,
        material: Material,
        ar: &A,
    ) -> (s: Shape)
        requires
            call_requires(shape, ()),
        ensures
            s.matrix() == transform,
            s.surface() == material,
            exists|made: Shape|
                call_ensures(shape, (), made) && s.same_kind(made) && s.centre_and_radius()
                    == made.centre_and_radius(),
            exact(ar) ==> is_inverse_of(s.kept_inverse(), transform, ar),
    {
        let mut s = shape();
        let ghost made = s;
        s.set_transform(transform, ar);
        s.set_material(material);
        assert(s.same_kind(made) && s.centre_and_radius() == made.centre_and_radius());
        s
    }

    /// `ray` as the shape sees it: mapped by the inverse kept, and left as
    /// it is where none is kept.
    pub open spec fn local_ray_of<A: Arithmetic>(&self, ray: Ray, ar: &A) -> Ray {
        match self.kept_inverse() {
            None => ray,
            Some(inverse_transform) => ray.transformed_by(inverse_transform, ar),
        }
    }

    /// `ray` as the shape sees it.
    pub fn local_ray<A: Arithmetic>(&self, ray: &Ray, ar: &A) -> (local: Ray)
        ensures
            self.kept_inverse().is_none() ==> local == *ray,
            exact(ar) ==> local == self.local_ray_of(*ray, ar),
    {
        match self.get_inverse_transform() {
            None => *ray,
            Some(inverse_transform) => ray.transform(inverse_transform, ar),
        }
    }

    /// Where `ray` meets the shape: where the ray as the shape sees it
    /// meets the shape in its own space.
    pub open spec fn meets<A: Arithmetic>(&self, ray: Ray, object_id: usize, ar: &A) -> Seq<
        Intersection,
    > {
        let local = self.local_ray_of(ray, ar);
        match self {
            Shape::Test(test_shape) => test_shape.local_meets(local, object_id, ar),
            Shape::Sphere(sphere) => sphere.local_meets(local, object_id, ar),
            Shape::Plane(plane) => plane.local_meets(local, object_id, ar),
        }
    }

    /// Where `ray` meets the shape, each place marked with `object_id`: none
    /// for the test shape, none or one for a plane, none or two for a sphere,
    /// the nearer first.
    pub fn intersect<A: Arithmetic>(&self, ray: &Ray, object_id: usize, ar: &A) -> (xs:
        Intersections)
        ensures
            forall|i: int| 0 <= i < xs@.len() ==> (#[trigger] xs@[i]).object_id == object_id,
            self is Test ==> xs@.len() == 0,
            self is Plane ==> xs@.len() <= 1,
            self is Sphere ==> xs@.len() == 0 || xs@.len() == 2,
            crate::ledger::ordered(xs@),
            xs@.len() == 2 && !xs@[0].t.nan() && !xs@[1].t.nan() ==> xs@[0].t.at_most(xs@[1].t),
            exact(ar) ==> xs@ == self.meets(*ray, object_id, ar),
    {
        let local_ray = self.local_ray(ray, ar);
        let xs = match self {
            Shape::Test(test_shape) => test_shape.local_intersect(&local_ray, object_id, ar),
            Shape::Sphere(sphere) => sphere.local_intersect(&local_ray, object_id, ar),
            Shape::Plane(plane) => plane.local_intersect(&local_ray, object_id, ar),
        };
        let _ = xs.count();
        proof {
            if xs@.len() == 2 {
                crate::ledger::lemma_ordered_ascends(xs@, 0, 1);
            }
        }
        xs
    }

    /// The entries of the inverse kept, and those of the identity where
    /// none is kept.
    pub open spec fn inverse_entries(&self) -> Entries {
        match self.kept_inverse() {
            None => identity_entries(),
            Some(inverse_transform) => inverse_transform.entries(),
        }
    }

    /// The shape's own normal at `point` as the shape sees it.
    pub open spec fn local_normal_of<A: Arithmetic>(&self, local_point: Point, ar: &A) -> Vector {
        match self {
            Shape::Test(test_shape) => test_shape.local_normal(local_point, ar),
            Shape::Sphere(sphere) => sphere.local_normal(local_point, ar),
            Shape::Plane(plane) => plane.local_normal(local_point, ar),
        }
    }

    /// The shape's own normal at `point` as the inverse maps it, mapped back
    /// by the transposed inverse and brought to length one.
    pub open spec fn normal_of<A: Arithmetic>(&self, point: Point, ar: &A) -> Vector {
        let e = self.inverse_entries();
        let local_point = apply_to_point(e, point, ar);
        let local_normal = self.local_normal_of(local_point, ar);
        apply_to_vector(transposed(e), local_normal, ar).normalize_of(ar)
    }

    /// The direction that stands on the shape at `point`, at length one.
    /// Where no inverse is kept the identity takes its place.
    pub fn normal_at<A: Arithmetic>(&self, point: &Point, ar: &A) -> (n: Vector)
        ensures
            exact(ar) ==> n == self.normal_of(*point, ar),
    {
        let inverse_transform = match self.get_inverse_transform() {
            None => Matrix::identity(),
            Some(inverse_transform) => inverse_transform,
        };
        let local_point = inverse_transform.times_point(*point, ar);
        let local_normal = match self {
            Shape::Test(test_shape) => test_shape.local_normal_at(&local_point, ar),
            Shape::Sphere(sphere) => sphere.local_normal_at(&local_point, ar),
            Shape::Plane(plane) => plane.local_normal_at(&local_point, ar),
        };
        let turned = transpose(&inverse_transform);
        let world_normal = turned.times_vector(local_normal, ar);
        proof {
            let e = self.inverse_entries();
            assert forall|r: int, c: int| 0 <= r < 4 && 0 <= c < 4 implies #[trigger] e(r, c)
                == inverse_transform.at(r, c) by {}
            assert(apply_to_point(inverse_transform.entries(), *point, ar) == apply_to_point(
                e,
                *point,
                ar,
            ));
            assert forall|r: int, c: int| 0 <= r < 4 && 0 <= c < 4 implies #[trigger] turned.at(r, c)
                == transposed(e)(r, c) by {
                assert(turned.at(r, c) == inverse_transform.at(c, r));
            }
            assert(apply_to_vector(turned.entries(), local_normal, ar) == apply_to_vector(
                transposed(e),
                local_normal,
                ar,
            ));
        }
        world_normal.normalize(ar)
    }
}

} // verus!
