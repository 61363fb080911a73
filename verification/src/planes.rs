use vstd::prelude::*;
use crate::arithmetic::{exact, quotient_of, Arithmetic};
use crate::intersections::{Intersection, Intersections};
use crate::materials::Material;
use crate::matrices::{inverse, is_identity, Matrix};
use crate::rays::Ray;
use crate::scalar::Scalar;
use crate::shapes::{HasMaterial, HasTransform, Intersects};
use crate::tuples::{epsilon, Point, Vector, EPSILON};

verus! {

/// The plane through the origin on which the y axis stands.
#[derive(Debug, Clone, Copy)]
pub struct Plane {
    transform: Matrix<4, 4>,
    inverse_transform: Option<Matrix<4, 4>>,
    material: Material,
}

impl Plane {
    /// The matrix last set.
    pub closed spec fn matrix(&self) -> Matrix<4, 4> {
        self.transform
    }

    /// The inverse kept beside the matrix.
    pub closed spec fn kept_inverse(&self) -> Option<Matrix<4, 4>> {
        self.inverse_transform
    }

    /// The material last set.
    pub closed spec fn surface(&self) -> Material {
        self.material
    }

}

impl Default for Plane {
    /// At the identity, of the standard material, with no inverse kept.
    fn default() -> (p: Plane)
        ensures
            is_identity(p.matrix()),
            p.kept_inverse().is_none(),
            p.surface() == Material::standard(),
    {
        Plane { transform: Matrix::identity(), inverse_transform: None, material: Material::default() }
    }
}

impl HasTransform for Plane {
    open spec fn transform_of(&self) -> Matrix<4, 4> {
        self.matrix()
    }

    open spec fn inverse_of(&self) -> Option<Matrix<4, 4>> {
        self.kept_inverse()
    }

    fn set_transform<A: Arithmetic>(&mut self, transform: Matrix<4, 4>, ar: &A)
        ensures
            final(self).surface() == old(self).surface(),
    {
        self.transform = transform;
        self.inverse_transform = inverse(&self.transform, ar);
    }

    fn get_inverse_transform(&self) -> (m: Option<Matrix<4, 4>>) {
        self.inverse_transform
    }

    fn get_transform(&self) -> (m: Matrix<4, 4>) {
        self.transform
    }
}

impl HasMaterial for Plane {
    open spec fn material_of(&self) -> Material {
        self.surface()
    }

    fn set_material(&mut self, material: Material)
        ensures
            final(self).matrix() == old(self).matrix(),
            final(self).kept_inverse() == old(self).kept_inverse(),
    {
        self.material = material;
    }

    fn get_material(&self) -> (m: Material) {
        self.material
    }
}

/// Whether a ray of direction `direction` runs along the plane: its y
/// coordinate is nearer to zero than `EPSILON`.
pub open spec fn runs_along(direction: Vector) -> bool {
    direction.y.absolute().below(Scalar { bits: EPSILON })
}

impl Plane {
    /// A ray that runs along the plane meets it nowhere, also where it lies
    /// in the plane. Every other ray meets it once, at `-origin.y / direction.y`.
    pub open spec fn local_meets<A: Arithmetic>(&self, ray: Ray, object_id: usize, ar: &A) -> Seq<
        Intersection,
    > {
        if runs_along(ray.direction) {
            Seq::empty()
        } else {
            seq![
                Intersection {
                    t: quotient_of(ar, ray.origin.y.negated(), ray.direction.y),
                    object_id: object_id,
                },
            ]
        }
    }

    /// The y axis, at every point.
    pub open spec fn local_normal<A: Arithmetic>(&self, point: Point, ar: &A) -> Vector {
        Vector { x: Scalar { bits: 0 }, y: Scalar { bits: 0x3f80_0000 }, z: Scalar { bits: 0 } }
    }
}

impl Intersects for Plane {
    fn local_intersect<A: Arithmetic>(&self, ray: &Ray, object_id: usize, ar: &A) -> (xs:
        Intersections)
        ensures
            xs@.len() == if runs_along(ray.direction) {
                0nat
            } else {
                1nat
            },
            exact(ar) ==> xs@ == self.local_meets(*ray, object_id, ar),
    {
        if ray.direction.y.abs().lt(epsilon()) {
            return Intersections::new(Vec::new());
        }
        let mut found: Vec<Intersection> = Vec::new();
        found.push(
            Intersection { t: ar.quotient(ray.origin.y.neg(), ray.direction.y), object_id: object_id },
        );
        let xs = Intersections::new(found);
        proof {
            crate::ledger::lemma_sorted_members(found@);
            assert(crate::ledger::sorted(found@.drop_last()) =~= Seq::<Intersection>::empty());
            assert(crate::ledger::sorted(found@) =~= found@);
        }
        xs
    }

    /// The y axis, at every point.
    fn local_normal_at<A: Arithmetic>(&self, point: &Point, ar: &A) -> (n: Vector)
        ensures
            n.x.bits == 0,
            n.y.bits == 0x3f80_0000,
            n.z.bits == 0,
            n == self.local_normal(*point, ar),
    {
        Vector { x: Scalar::zero(), y: Scalar::one(), z: Scalar::zero() }
    }
}

} // verus!
