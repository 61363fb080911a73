use vstd::prelude::*;
use crate::arithmetic::{difference_of, exact, product_of, quotient_of, sqrt_of, Arithmetic};
use crate::intersections::{hit_of, sin2_t_of, Computations, Intersection, Intersections};
use crate::lights::{Light, LightProperties, PointLight};
use crate::ledger::sorted;
use crate::materials::{lightning, lightning_of, Material};
use crate::matrices::{is_identity, is_inverse_of};
use crate::rays::Ray;
use crate::scalar::Scalar;
use crate::shapes::{HasMaterial, HasTransform, Shape};
use crate::transformations::scaling;
use crate::tuples::{Color, Point};

verus! {

/// A scene: shapes, each known by its place in `objects`, and at most one
/// light.
#[derive(Debug, Clone)]
pub struct World {
    pub objects: Vec<Shape>,
    pub light: Option<Light>,
}

/// Light that reaches a hit by a bounce: the ray along which it comes, how
/// many further bounces may be followed along that ray, and the share of it
/// that the surface passes on.
#[derive(Debug, Clone, Copy)]
pub struct Bounce {
    pub ray: Ray,
    pub remaining: usize,
    pub share: Scalar,
}

/// Whether an object at distance `hit` along the way to a light at
/// `distance` throws a shadow: there is a hit, and it lies nearer than the
/// light.
pub fn blocks(hit: Option<&Intersection>, distance: Scalar) -> (b: bool)
    ensures
        b == (hit matches Some(i) && i.t.below(distance)),
{
    match hit {
        None => false,
        Some(intersection) => intersection.t.lt(distance),
    }
}

/// Whether a surface mixes what it mirrors with what it lets through by its
/// reflectance: it does where it is both reflective and transparent.
pub fn mixes(material: &Material) -> (b: bool)
    ensures
        b == (material.reflective.positive() && material.transparency.positive()),
{
    material.reflective.is_positive() && material.transparency.is_positive()
}

impl World {
    /// The refractive index of the medium `side`: that of the object's
    /// material, and one for empty space and for an object that the world
    /// does not hold.
    pub open spec fn refractive_index_of(&self, side: Option<usize>) -> Scalar {
        match side {
            Some(id) if id < self.objects@.len() => self.objects@[id as int].surface().refractive_index,
            _ => Scalar { bits: 0x3f80_0000 },
        }
    }

    /// The world without shapes or light.
    pub fn new() -> (w: Self)
        ensures
            w.objects@.len() == 0,
            w.light.is_none(),
    {
        World { objects: Vec::new(), light: None }
    }

    /// The world of two spheres about the origin, the inner of half the
    /// size, under one white light at `(-10, 10, -10)`.
    pub fn default<A: Arithmetic>(ar: &A) -> (w: Self)
        ensures
            w.light == Some(
                Light::Point(
                    PointLight {
                        position: Point {
                            x: Scalar { bits: 0xc120_0000 },
                            y: Scalar { bits: 0x4120_0000 },
                            z: Scalar { bits: 0xc120_0000 },
                        },
                        intensity: Color {
                            r: Scalar { bits: 0x3f80_0000 },
                            g: Scalar { bits: 0x3f80_0000 },
                            b: Scalar { bits: 0x3f80_0000 },
                        },
                    },
                ),
            ),
            w.objects@.len() == 2,
            forall|i: int|
                0 <= i < 2 ==> (#[trigger] w.objects@[i]).centre_and_radius() == Some(
                    (
                        Point { x: Scalar { bits: 0 }, y: Scalar { bits: 0 }, z: Scalar { bits: 0 } },
                        Scalar { bits: 0x3f80_0000 },
                    ),
                ),
            w.objects@[0] is Sphere,
            is_identity(w.objects@[0].matrix()),
            w.objects@[0].kept_inverse().is_none(),
            w.objects@[0].surface() == (Material {
                color: Color {
                    r: Scalar { bits: 0x3f4c_cccd },
                    g: Scalar { bits: 0x3f80_0000 },
                    b: Scalar { bits: 0x3f19_999a },
                },
                diffuse: Scalar { bits: 0x3f33_3333 },
                specular: Scalar { bits: 0x3e4c_cccd },
                ..Material::standard()
            }),
            w.objects@[1] is Sphere,
            w.objects@[1].surface() == Material::standard(),
            w.objects@[1].matrix().at(0, 0).bits == 0x3f00_0000,
            w.objects@[1].matrix().at(1, 1).bits == 0x3f00_0000,
            w.objects@[1].matrix().at(2, 2).bits == 0x3f00_0000,
            w.objects@[1].matrix().at(3, 3).bits == 0x3f80_0000,
            forall|r: int, c: int|
                0 <= r < 4 && 0 <= c < 4 && r != c ==> (#[trigger] w.objects@[1].matrix().at(r, c)).bits
                    == 0,
            exact(ar) ==> is_inverse_of(w.objects@[1].kept_inverse(), w.objects@[1].matrix(), ar),
    {
        let minus_ten = Scalar::from_bits(0xc120_0000);
        let ten = Scalar::from_bits(0x4120_0000);
        let light = Light::Point(
            PointLight { position: Point { x: minus_ten, y: ten, z: minus_ten }, intensity: Color::white() },
        );
        let mut s1 = Shape::sphere();
        let mut m1: Material = Material::default();
        m1.set_color(
            Color {
                r: Scalar::from_bits(0x3f4c_cccd),
                g: Scalar::one(),
                b: Scalar::from_bits(0x3f19_999a),
            },
        );
        m1.set_diffuse(Scalar::from_bits(0x3f33_3333));
        m1.set_specular(Scalar::from_bits(0x3e4c_cccd));
        s1.set_material(m1);

        let mut s2 = Shape::sphere();
        s2.set_transform(scaling(Scalar::half(), Scalar::half(), Scalar::half()), ar);

        let mut objects: Vec<Shape> = Vec::new();
        objects.push(s1);
        objects.push(s2);
        World { objects, light: Some(light) }
    }

    /// Where `ray` meets the first `n` shapes of the world, the nearest
    /// place first: what each shape gives is taken into the ledger shape by
    /// shape, so that of two places at one distance that of the earlier
    /// shape comes first.
    pub open spec fn ledger_of<A: Arithmetic>(&self, ray: Ray, n: nat, ar: &A) -> Seq<Intersection>
        decreases n,
    {
        if n == 0 {
            Seq::empty()
        } else {
            sorted(
                self.ledger_of(ray, (n - 1) as nat, ar) + self.objects@[n - 1].meets(
                    ray,
                    (n - 1) as usize,
                    ar,
                ),
            )
        }
    }

    /// Where `ray` meets the shapes of the world.
    pub open spec fn intersections_of<A: Arithmetic>(&self, ray: Ray, ar: &A) -> Seq<Intersection> {
        self.ledger_of(ray, self.objects@.len(), ar)
    }

    /// All the places where `ray` meets the shapes of the world, the nearest
    /// first, each marked with the index of its shape.
    pub fn intersect_world<A: Arithmetic>(&self, ray: &Ray, ar: &A) -> (xs: Intersections)
        ensures
            forall|i: int| 0 <= i < xs@.len() ==> (#[trigger] xs@[i]).object_id < self.objects@.len(),
            xs@.len() <= 2 * self.objects@.len(),
            crate::ledger::ordered(xs@),
            exact(ar) ==> xs@ == self.intersections_of(*ray, ar),
    {
        let mut intersections = Intersections::new(Vec::new());
        let mut index: usize = 0;
        while index < self.objects.len()
            invariant
                index <= self.objects@.len(),
                forall|i: int|
                    0 <= i < intersections@.len() ==> (#[trigger] intersections@[i]).object_id < index,
                intersections@.len() <= 2 * index,
                exact(ar) ==> intersections@ == self.ledger_of(*ray, index as nat, ar),
            decreases self.objects@.len() - index,
        {
            let xs = self.objects[index].intersect(ray, index, ar);
            let ghost before = intersections@;
            intersections.extend(xs);
            proof {
                assert forall|i: int| 0 <= i < intersections@.len() implies (
                #[trigger] intersections@[i]).object_id < index + 1 by {
                    let x = intersections@[i];
                    if before.contains(x) {
                        let j = choose|j: int| 0 <= j < before.len() && before[j] == x;
                        assert(before[j].object_id < index);
                    } else {
                        let j = choose|j: int| 0 <= j < xs@.len() && xs@[j] == x;
                        assert(xs@[j].object_id == index);
                    }
                }
            }
            index += 1;
        }
        let _ = intersections.count();
        intersections
    }

    /// The colour that the hit described by `comps` sends to the eye: the
    /// light of the surface itself, seen in shadow where the point just
    /// above the hit lies in shadow, and black without a light, plus what
    /// the surface mirrors plus what it lets through. Where the surface is
    /// both reflective and transparent the last two are weighed by the
    /// reflectance `r` that Schlick gives, `r` for what is mirrored and
    /// `1 - r` for what comes through.
    pub open spec fn shade_hit_of<A: Arithmetic>(&self, comps: Computations, remaining: usize, ar: &A) -> Color
        decreases remaining, 2int,
    {
        let object = self.objects@[comps.object_id as int];
        let shadowed = self.shadowed_of(comps.over_point, ar);
        let surface = match self.light {
            None => Color::dark(),
            Some(light) => lightning_of(
                object,
                light,
                comps.point,
                comps.eyev,
                comps.normalv,
                shadowed,
                ar,
            ),
        };
        let reflected = self.reflected_color_of(comps, remaining, ar);
        let refracted = self.refracted_color_of(comps, remaining, ar);
        let material = object.surface();
        if material.reflective.positive() && material.transparency.positive() {
            let reflectance = comps.schlick_of(ar);
            let through = difference_of(ar, Scalar { bits: 0x3f80_0000 }, reflectance);
            surface.plus_of(reflected.times_of(reflectance, ar), ar).plus_of(
                refracted.times_of(through, ar),
                ar,
            )
        } else {
            surface.plus_of(reflected, ar).plus_of(refracted, ar)
        }
    }

    /// The colour seen along `ray`, following mirrored and refracted light
    /// `remaining` times: black where the ray hits nothing, and else the
    /// colour of its hit.
    pub open spec fn color_at_of<A: Arithmetic>(&self, ray: Ray, remaining: usize, ar: &A) -> Color
        decreases remaining, 3int,
    {
        let xs = self.intersections_of(ray, ar);
        match hit_of(xs) {
            None => Color::dark(),
            Some(intersection) => self.shade_hit_of(
                intersection.computations_of(ray, *self, xs, ar),
                remaining,
                ar,
            ),
        }
    }

    /// The light that the hit mirrors to the eye: none where there is no
    /// bounce to follow, and else the colour seen along the bounce times its
    /// share.
    pub open spec fn reflected_color_of<A: Arithmetic>(
        &self,
        comps: Computations,
        remaining: usize,
        ar: &A,
    ) -> Color
        decreases remaining, 1int,
    {
        match self.mirrored(comps, remaining) {
            Some(bounce) if remaining > 0 => self.color_at_of(
                bounce.ray,
                (remaining - 1) as usize,
                ar,
            ).times_of(bounce.share, ar),
            _ => Color::dark(),
        }
    }

    /// The light that comes through the surface at the hit: none where
    /// there is no bounce to follow, and else the colour seen along the
    /// bounce times its share.
    pub open spec fn refracted_color_of<A: Arithmetic>(
        &self,
        comps: Computations,
        remaining: usize,
        ar: &A,
    ) -> Color
        decreases remaining, 1int,
    {
        match self.refraction_of(comps, remaining, ar) {
            Some(bounce) if remaining > 0 => self.color_at_of(
                bounce.ray,
                (remaining - 1) as usize,
                ar,
            ).times_of(bounce.share, ar),
            _ => Color::dark(),
        }
    }

    /// Whether `point` lies in shadow: the ray from it to the light hits
    /// something nearer than the light. Without a light everything lies in
    /// shadow.
    pub open spec fn shadowed_of<A: Arithmetic>(&self, point: Point, ar: &A) -> bool {
        match self.light {
            None => true,
            Some(light) => {
                let v = light.place().minus_of(point, ar);
                let r = Ray { origin: point, direction: v.normalize_of(ar) };
                match hit_of(self.intersections_of(r, ar)) {
                    Some(intersection) => intersection.t.below(v.magnitude_of(ar)),
                    None => false,
                }
            },
        }
    }

    /// The bounce by which light comes through the surface at the hit.
    ///
    /// There is none where the surface lets nothing through, where no bounce
    /// remains, or where all light is mirrored inside, which is where the
    /// squared sine of the refracted angle exceeds one. Else the ray starts
    /// just below the hit and runs along
    /// `normal * (n1 / n2 * cos - cos_t) - eye * (n1 / n2)`, `cos` being the
    /// cosine between the eye and the normal and `cos_t` that of the
    /// refracted angle, with one bounce less, at the material's transparency.
    pub open spec fn refraction_of<A: Arithmetic>(
        &self,
        comps: Computations,
        remaining: usize,
        ar: &A,
    ) -> Option<Bounce> {
        let one = Scalar { bits: 0x3f80_0000 };
        let material = self.objects@[comps.object_id as int].surface();
        let n_ratio = quotient_of(ar, comps.n1, comps.n2);
        let cos_i = comps.eyev.dot_of(comps.normalv, ar);
        let sin2_t = sin2_t_of(n_ratio, cos_i, ar);
        if material.transparency.magnitude() == 0 || remaining == 0 || one.below(sin2_t) {
            None
        } else {
            let cos_t = sqrt_of(ar, difference_of(ar, one, sin2_t));
            let along = difference_of(ar, product_of(ar, n_ratio, cos_i), cos_t);
            let direction = comps.normalv.times_of(along, ar).minus_of(
                comps.eyev.times_of(n_ratio, ar),
                ar,
            );
            Some(
                Bounce {
                    ray: Ray { origin: comps.under_point, direction },
                    remaining: (remaining - 1) as usize,
                    share: material.transparency,
                },
            )
        }
    }

    /// The colour that the hit described by `comps` sends to the eye.
    pub fn shade_hit<A: Arithmetic>(&self, comps: Computations, remaining: usize, ar: &A) -> (c:
        Color)
        requires
            comps.object_id < self.objects@.len(),
        ensures
            exact(ar) ==> c == self.shade_hit_of(comps, remaining, ar),
        decreases remaining, 1nat,
    {
        let object = &self.objects[comps.object_id];
        let shadowed = self.is_shadowed(comps.over_point, ar);
        let surface = match self.light {
            None => Color::black(),
            Some(light) => lightning(
                object,
                light,
                comps.point,
                comps.eyev,
                comps.normalv,
                shadowed,
                ar,
            ),
        };
        let reflected = self.reflected_color(&comps, remaining, ar);
        let refracted = self.refracted_color(&comps, remaining, ar);

        let material = object.get_material();
        if mixes(&material) {
            let reflectance = comps.schlick(ar);
            let through = ar.difference(Scalar::one(), reflectance);
            return surface.plus(reflected.times(reflectance, ar), ar).plus(
                refracted.times(through, ar),
                ar,
            );
        }
        surface.plus(reflected, ar).plus(refracted, ar)
    }

    /// The colour seen along `ray`, following mirrored and refracted light
    /// `remaining` times.
    pub fn color_at<A: Arithmetic>(&self, ray: &Ray, remaining: usize, ar: &A) -> (c: Color)
        ensures
            self.objects@.len() == 0 ==> c == Color::dark(),
            exact(ar) ==> c == self.color_at_of(*ray, remaining, ar),
        decreases remaining, 2nat,
    {
        let xs = self.intersect_world(ray, ar);
        match xs.hit() {
            None => Color::black(),
            Some(intersection) => {
                let comps = intersection.prepare_computations(ray, self, &xs, ar);
                self.shade_hit(comps, remaining, ar)
            },
        }
    }

    /// Whether `point` lies in shadow: something stands between it and the
    /// light. Without a light everything lies in shadow.
    pub fn is_shadowed<A: Arithmetic>(&self, point: Point, ar: &A) -> (b: bool)
        ensures
            self.light.is_none() ==> b,
            self.light.is_some() && self.objects@.len() == 0 ==> !b,
            exact(ar) ==> b == self.shadowed_of(point, ar),
    {
        match self.light {
            None => true,
            Some(light) => {
                let v = light.position().minus(point, ar);
                let distance = v.magnitude(ar);
                let direction = v.normalize(ar);

                let r = Ray { origin: point, direction };

                let intersections = self.intersect_world(&r, ar);
                blocks(intersections.hit(), distance)
            },
        }
    }

    /// The bounce by which mirrored light reaches the hit: none where no
    /// bounce remains or the surface mirrors nothing, and else the ray from
    /// just above the hit along the mirrored direction, with one bounce
    /// less, at the material's share of mirrored light.
    pub open spec fn mirrored(&self, comps: Computations, remaining: usize) -> Option<Bounce> {
        let material = self.objects@[comps.object_id as int].surface();
        if remaining == 0 || material.reflective.magnitude() == 0 {
            None
        } else {
            Some(
                Bounce {
                    ray: Ray { origin: comps.over_point, direction: comps.reflectv },
                    remaining: (remaining - 1) as usize,
                    share: material.reflective,
                },
            )
        }
    }

    /// The bounce by which mirrored light reaches the hit, if there is one.
    pub fn reflection(&self, comps: &Computations, remaining: usize) -> (b: Option<Bounce>)
        requires
            comps.object_id < self.objects@.len(),
        ensures
            b == self.mirrored(*comps, remaining),
    {
        if remaining == 0 {
            return None;
        }
        let material = self.objects[comps.object_id].get_material();
        if material.reflective.is_zero() {
            return None;
        }
        let reflect_ray = Ray { origin: comps.over_point, direction: comps.reflectv };
        Some(Bounce { ray: reflect_ray, remaining: remaining - 1, share: material.reflective })
    }

    /// The light that the hit mirrors to the eye: none where there is no
    /// bounce to follow, and else the colour seen along the bounce times its
    /// share.
    pub fn reflected_color<A: Arithmetic>(&self, comps: &Computations, remaining: usize, ar: &A) -> (c:
        Color)
        requires
            comps.object_id < self.objects@.len(),
        ensures
            remaining == 0 ==> c == Color::dark(),
            self.mirrored(*comps, remaining).is_none() ==> c == Color::dark(),
            exact(ar) ==> c == self.reflected_color_of(*comps, remaining, ar),
        decreases remaining, 0nat,
    {
        match self.reflection(comps, remaining) {
            None => Color::black(),
            Some(bounce) => self.color_at(&bounce.ray, bounce.remaining, ar).times(bounce.share, ar),
        }
    }

    /// The bounce by which light comes through the surface at the hit, if
    /// there is one.
    pub fn refraction<A: Arithmetic>(&self, comps: &Computations, remaining: usize, ar: &A) -> (b:
        Option<Bounce>)
        requires
            comps.object_id < self.objects@.len(),
        ensures
            remaining == 0 ==> b.is_none(),
            self.objects@[comps.object_id as int].surface().transparency.magnitude() == 0
                ==> b.is_none(),
            b matches Some(bounce) ==> {
                &&& bounce.ray.origin == comps.under_point
                &&& bounce.remaining == remaining - 1
                &&& bounce.share == self.objects@[comps.object_id as int].surface().transparency
            },
            exact(ar) ==> b == self.refraction_of(*comps, remaining, ar),
    {
        let object = &self.objects[comps.object_id];
        if object.get_material().transparency.is_zero() || remaining == 0 {
            return None;
        }
        let one = Scalar::one();
        let n_ratio = ar.quotient(comps.n1, comps.n2);
        let cos_i = comps.eyev.dot(&comps.normalv, ar);
        let sin2_t = ar.product(ar.powi(n_ratio, 2), ar.difference(one, ar.powi(cos_i, 2)));
        if sin2_t.gt(one) {
            return None;
        }
        let cos_t = ar.sqrt(ar.difference(one, sin2_t));
        let along = ar.difference(ar.product(n_ratio, cos_i), cos_t);
        let direction = comps.normalv.times(along, ar).minus(comps.eyev.times(n_ratio, ar), ar);
        let refract_ray = Ray { origin: comps.under_point, direction };
        Some(
            Bounce {
                ray: refract_ray,
                remaining: remaining - 1,
                share: object.get_material().transparency,
            },
        )
    }

    /// The light that comes through the surface at the hit: none where
    /// there is no bounce to follow, and else the colour seen along the
    /// bounce times its share.
    pub fn refracted_color<A: Arithmetic>(&self, comps: &Computations, remaining: usize, ar: &A) -> (c:
        Color)
        requires
            comps.object_id < self.objects@.len(),
        ensures
            remaining == 0 ==> c == Color::dark(),
            self.objects@[comps.object_id as int].surface().transparency.magnitude() == 0 ==> c
                == Color::dark(),
            exact(ar) ==> c == self.refracted_color_of(*comps, remaining, ar),
        decreases remaining, 0nat,
    {
        match self.refraction(comps, remaining, ar) {
            None => Color::black(),
            Some(bounce) => self.color_at(&bounce.ray, bounce.remaining, ar).times(bounce.share, ar),
        }
    }
}

} // verus!
