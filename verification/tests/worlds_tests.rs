#![allow(dead_code)]
#![allow(unused_imports)]

use raytracer::arithmetic::Arithmetic;
use raytracer::camera::Camera;
use raytracer::intersections::{Computations, Intersection, Intersections};
use raytracer::lights::{Light, LightProperties, PointLight};
use raytracer::materials::{lightning, Material};
use raytracer::matrices::{inverse, transpose, Matrix};
use raytracer::patterns::Pattern;
use raytracer::planes::Plane;
use raytracer::rays::Ray;
use raytracer::scalar::Scalar;
use raytracer::shapes::{HasMaterial, HasTransform, Intersects, Shape, TransformData};
use raytracer::spheres::Sphere;
use raytracer::transformations::{scaling, translation};
use raytracer::tuples::mytuples::Tuple;
use raytracer::tuples::{Color, Point, Vector, EPSILON};
use raytracer::worlds::World;

const PI: f32 = std::f32::consts::PI;

/// The arithmetic of the machine.
struct Ieee;

fn f(s: Scalar) -> f32 {
    f32::from_bits(s.to_bits())
}

fn s(v: f32) -> Scalar {
    Scalar::from_bits(v.to_bits())
}

impl Arithmetic for Ieee {
    fn sum(&self, a: Scalar, b: Scalar) -> Scalar {
        s(f(a) + f(b))
    }
    fn difference(&self, a: Scalar, b: Scalar) -> Scalar {
        s(f(a) - f(b))
    }
    fn product(&self, a: Scalar, b: Scalar) -> Scalar {
        s(f(a) * f(b))
    }
    fn quotient(&self, a: Scalar, b: Scalar) -> Scalar {
        s(f(a) / f(b))
    }
    fn remainder(&self, a: Scalar, b: Scalar) -> Scalar {
        s(f(a) % f(b))
    }
    fn sqrt(&self, a: Scalar) -> Scalar {
        s(f(a).sqrt())
    }
    fn powi(&self, a: Scalar, n: i32) -> Scalar {
        s(f(a).powi(n))
    }
    fn powf(&self, a: Scalar, b: Scalar) -> Scalar {
        s(f(a).powf(f(b)))
    }
    fn tan(&self, a: Scalar) -> Scalar {
        s(f(a).tan())
    }
    fn floor(&self, a: Scalar) -> Scalar {
        s(f(a).floor())
    }
    fn round(&self, a: Scalar) -> Scalar {
        s(f(a).round())
    }
    fn from_usize(&self, n: usize) -> Scalar {
        s(n as f32)
    }
    fn to_u8(&self, a: Scalar) -> u8 {
        f(a) as u8
    }
}

fn sqrt(v: f32) -> f32 {
    v.sqrt()
}

fn point(x: f32, y: f32, z: f32) -> Point {
    Point { x: s(x), y: s(y), z: s(z) }
}

fn vector(x: f32, y: f32, z: f32) -> Vector {
    Vector { x: s(x), y: s(y), z: s(z) }
}

fn color(r: f32, g: f32, b: f32) -> Color {
    Color { r: s(r), g: s(g), b: s(b) }
}

fn ray(origin: Point, direction: Vector) -> Ray {
    Ray { origin, direction }
}

fn point_light(position: Point, intensity: Color) -> Light {
    Light::Point(PointLight { position, intensity })
}

fn matrix<const R: usize, const C: usize>(rows: [[f32; C]; R]) -> Matrix<R, C> {
    let mut m: Matrix<R, C> = Matrix::init(s(0.0));
    for r in 0..R {
        for c in 0..C {
            m.set(r, c, s(rows[r][c]));
        }
    }
    m
}

fn rotation_x(r: f32) -> Matrix<4, 4> {
    matrix([
        [1.0, 0.0, 0.0, 0.0],
        [0.0, r.cos(), -r.sin(), 0.0],
        [0.0, r.sin(), r.cos(), 0.0],
        [0.0, 0.0, 0.0, 1.0],
    ])
}

fn rotation_y(r: f32) -> Matrix<4, 4> {
    matrix([
        [r.cos(), 0.0, r.sin(), 0.0],
        [0.0, 1.0, 0.0, 0.0],
        [-r.sin(), 0.0, r.cos(), 0.0],
        [0.0, 0.0, 0.0, 1.0],
    ])
}

fn rotation_z(r: f32) -> Matrix<4, 4> {
    matrix([
        [r.cos(), -r.sin(), 0.0, 0.0],
        [r.sin(), r.cos(), 0.0, 0.0],
        [0.0, 0.0, 1.0, 0.0],
        [0.0, 0.0, 0.0, 1.0],
    ])
}

fn same_point(a: Point, b: Point) {
    assert!(a.approx_eq(&b, &Ieee), "{:?} is not {:?}", shown(a.x, a.y, a.z), shown(b.x, b.y, b.z));
}

fn same_vector(a: Vector, b: Vector) {
    assert!(a.approx_eq(&b, &Ieee), "{:?} is not {:?}", shown(a.x, a.y, a.z), shown(b.x, b.y, b.z));
}

fn same_color(a: Color, b: Color) {
    assert!(a.approx_eq(&b, &Ieee), "{:?} is not {:?}", shown(a.r, a.g, a.b), shown(b.r, b.g, b.b));
}

fn shown(a: Scalar, b: Scalar, c: Scalar) -> (f32, f32, f32) {
    (f(a), f(b), f(c))
}

fn same_matrix<const R: usize, const C: usize>(a: Matrix<R, C>, b: Matrix<R, C>) {
    assert!(a.equals(&b), "{:?} is not {:?}", cells(&a), cells(&b));
}

fn close_matrix(a: Matrix<4, 4>, b: Matrix<4, 4>) {
    for r in 0..4 {
        for c in 0..4 {
            let (x, y) = (f(a.get(r, c)), f(b.get(r, c)));
            assert!((x - y).abs() <= 0.001, "{:?} is not {:?}", cells(&a), cells(&b));
        }
    }
}

fn cells<const R: usize, const C: usize>(m: &Matrix<R, C>) -> Vec<Vec<f32>> {
    (0..R).map(|r| (0..C).map(|c| f(m.get(r, c))).collect()).collect()
}

fn same_material(a: &Material, b: &Material) {
    same_color(a.color, b.color);
    assert_eq!(f(a.ambient), f(b.ambient));
    assert_eq!(f(a.diffuse), f(b.diffuse));
    assert_eq!(f(a.specular), f(b.specular));
    assert_eq!(f(a.shininess), f(b.shininess));
    assert_eq!(a.pattern.is_some(), b.pattern.is_some());
    assert_eq!(f(a.reflective), f(b.reflective));
    assert_eq!(f(a.transparency), f(b.transparency));
    assert_eq!(f(a.refractive_index), f(b.refractive_index));
}

fn same_option_matrix(a: Option<Matrix<4, 4>>, b: Option<Matrix<4, 4>>) {
    match (a, b) {
        (None, None) => (),
        (Some(x), Some(y)) => same_matrix(x, y),
        _ => panic!("one of the two has no inverse"),
    }
}

fn same_shape(a: &Shape, b: &Shape) {
    assert_eq!(matches!(a, Shape::Sphere(_)), matches!(b, Shape::Sphere(_)));
    assert_eq!(matches!(a, Shape::Plane(_)), matches!(b, Shape::Plane(_)));
    same_matrix(a.get_transform(), b.get_transform());
    same_option_matrix(a.get_inverse_transform(), b.get_inverse_transform());
    same_material(&a.get_material(), &b.get_material());
}

#[test]
fn creating_a_world() {
    let w = World::new();
    assert_eq!(w.objects.len(), 0);
    assert!(w.light.is_none());
}

#[test]
fn the_default_world() {
    let light = point_light(point(-10.0, 10.0, -10.0), color(1.0, 1.0, 1.0));
    let mut s1 = Shape::sphere();
    let mut m1 = Material::default();
    m1.set_color(color(0.8, 1.0, 0.6));
    m1.set_diffuse(s(0.7));
    m1.set_specular(s(0.2));
    s1.set_material(m1);

    let mut s2 = Shape::sphere();
    let transform: Matrix<4, 4> = scaling(s(0.5), s(0.5), s(0.5));
    s2.set_transform(transform, &Ieee);

    let w = World::default(&Ieee);
    let given = w.light.unwrap();
    same_point(given.position(), light.position());
    same_color(given.intensity(), light.intensity());
    assert_eq!(w.objects.len(), 2);
    same_shape(&w.objects[0], &s1);
    same_shape(&w.objects[1], &s2);
}

#[test]
fn intersect_a_world_with_a_ray() {
    let w = World::default(&Ieee);
    let r = ray(point(0.0, 0.0, -5.0), vector(0.0, 0.0, 1.0));
    let xs = w.intersect_world(&r, &Ieee);
    assert_eq!(xs.count(), 4);
    assert_eq!(f(xs[0].t), 4.0);
    assert_eq!(f(xs[1].t), 4.5);
    assert_eq!(f(xs[2].t), 5.5);
    assert_eq!(f(xs[3].t), 6.0);
}

#[test]
fn shading_an_intersection() {
    let w = World::default(&Ieee);
    let r = ray(point(0.0, 0.0, -5.0), vector(0.0, 0.0, 1.0));
    let i = Intersection::new(s(4.0), 0);
    let comps = i.prepare_computations(&r, &w, &Intersections::new(vec![]), &Ieee);
    same_color(w.shade_hit(comps, 0, &Ieee), color(0.38066, 0.47583, 0.2855));
}

#[test]
fn shading_an_intersection_from_the_inside() {
    let mut w = World::default(&Ieee);
    w.light = Some(point_light(point(0.0, 0.25, 0.0), color(1.0, 1.0, 1.0)));
    let r = ray(point(0.0, 0.0, 0.0), vector(0.0, 0.0, 1.0));
    let i = Intersection::new(s(0.5), 1);
    let comps = i.prepare_computations(&r, &w, &Intersections::new(vec![]), &Ieee);
    same_color(w.shade_hit(comps, 0, &Ieee), color(0.90498, 0.90498, 0.90498));
}

#[test]
fn the_color_when_a_ray_misses() {
    let w = World::default(&Ieee);
    let r = ray(point(0.0, 0.0, -5.0), vector(0.0, 1.0, 0.0));
    let c = w.color_at(&r, 0, &Ieee);
    same_color(c, color(0.0, 0.0, 0.0));
}

#[test]
fn the_color_when_a_ray_hits() {
    let w = World::default(&Ieee);
    let r = ray(point(0.0, 0.0, -5.0), vector(0.0, 0.0, 1.0));
    let c = w.color_at(&r, 0, &Ieee);
    same_color(c, color(0.38066, 0.47583, 0.2855));
}

#[test]
fn the_color_with_an_intersection_behind_the_ray() {
    let mut w = World::default(&Ieee);
    let mut object_material0 = w.objects[0].get_material();
    object_material0.set_ambient(s(1.0));
    w.objects[0].set_material(object_material0);
    let mut object_material1 = w.objects[1].get_material();
    object_material1.set_ambient(s(1.0));
    w.objects[1].set_material(object_material1);

    let r = ray(point(0.0, 0.0, 0.75), vector(0.0, 0.0, -1.0));
    let c = w.color_at(&r, 0, &Ieee);
    same_color(c, w.objects[1].get_material().color);
}

#[test]
fn there_is_no_shadow_when_nothing_is_collinear_with_point_and_light() {
    let w = World::default(&Ieee);
    let p = point(0.0, 10.0, 0.0);
    assert_eq!(w.is_shadowed(p, &Ieee), false);
}

#[test]
fn the_shadow_when_an_object_is_between_the_point_and_the_light() {
    let w = World::default(&Ieee);
    let p = point(10.0, -10.0, 10.0);
    assert_eq!(w.is_shadowed(p, &Ieee), true);
}

#[test]
fn there_is_no_shadow_when_an_object_is_behind_the_light() {
    let w = World::default(&Ieee);
    let p = point(-20.0, 20.0, -20.0);
    assert_eq!(w.is_shadowed(p, &Ieee), false);
}

#[test]
fn there_is_no_shadow_when_an_object_is_behind_the_point() {
    let w = World::default(&Ieee);
    let p = point(-2.0, 2.0, -2.0);
    assert_eq!(w.is_shadowed(p, &Ieee), false);
}

#[test]
fn shade_hit_is_given_an_intersection_in_shadow() {
    let mut w = World::default(&Ieee);
    let light = point_light(point(0.0, 0.0, 10.0), color(1.0, 1.0, 1.0));
    w.light = Some(light);
    let s1 = Shape::sphere();
    let transform: Matrix<4, 4> = translation(s(0.0), s(0.0), s(10.0));
    let mut s2 = Shape::sphere();
    s2.set_transform(transform, &Ieee);
    let r = ray(point(0.0, 0.0, 5.0), vector(0.0, 0.0, 1.0));
    let i = Intersection { t: s(4.0), object_id: 1 };
    let comps = i.prepare_computations(&r, &w, &Intersections::new(vec![]), &Ieee);
    w.objects.extend(vec![s1, s2.clone()]);
    let c = w.shade_hit(comps, 0, &Ieee);
    same_color(c, color(0.1, 0.1, 0.1));
}

#[test]
fn the_hit_should_offset_the_point() {
    let r = ray(point(0.0, 0.0, -5.0), vector(0.0, 0.0, 0.0));
    let mut shape = Shape::sphere();
    let transform: Matrix<4, 4> = translation(s(0.0), s(0.0), s(1.0));
    shape.set_transform(transform, &Ieee);
    let i = Intersection { t: s(5.0), object_id: 0 };
    let mut w = World::new();
    w.objects.append(&mut vec![shape]);
    let comps = i.prepare_computations(&r, &w, &Intersections::new(vec![]), &Ieee);
    let epsilon = f32::from_bits(EPSILON);
    assert_eq!(f(comps.over_point.z()) < -epsilon / 2.0, true);
    assert_eq!(f(comps.point.z()) > f(comps.over_point.z()), true);
}

#[test]
fn the_reflected_color_for_a_nonreflective_material() {
    let mut w = World::default(&Ieee);
    let r = ray(point(0.0, 0.0, 0.0), vector(0.0, 0.0, 1.0));
    let mut second_object_material = w.objects[1].get_material();
    second_object_material.set_ambient(s(1.0));
    w.objects[1].set_material(second_object_material);
    let i = Intersection::new(s(1.0), 1);
    let comps = i.prepare_computations(&r, &w, &Intersections::new(vec![]), &Ieee);
    let found = w.reflected_color(&comps, 0, &Ieee);
    same_color(found, color(0.0, 0.0, 0.0));
}

#[test]
fn the_reflected_color_for_a_reflective_material() {
    let mut w = World::default(&Ieee);
    let mut shape = Shape::plane();
    let mut material = Material::default();
    material.set_reflective(s(0.5));
    let identity: Matrix<4, 4> = Matrix::identity();
    let transform = translation(s(0.0), s(-1.0), s(0.0)).times(identity, &Ieee);
    shape.set_material(material);
    shape.set_transform(transform, &Ieee);
    w.objects.append(&mut vec![shape]);

    let r = ray(point(0.0, 0.0, -3.0), vector(0.0, -sqrt(2.0) / 2.0, sqrt(2.0) / 2.0));
    let i = Intersection::new(s(sqrt(2.0)), 2);
    let comps = i.prepare_computations(&r, &w, &Intersections::new(vec![]), &Ieee);
    let found = w.reflected_color(&comps, 1, &Ieee);
    same_color(found, color(0.19032, 0.2379, 0.14274));
}

#[test]
fn shade_hit_with_a_reflective_material() {
    let mut w = World::default(&Ieee);
    let mut shape = Shape::plane();
    let mut material = shape.get_material().clone();
    material.set_reflective(s(0.5));
    shape.set_material(material);
    shape.set_transform(translation(s(0.0), s(-1.0), s(0.0)), &Ieee);
    w.objects.append(&mut vec![shape]);
    let r = ray(point(0.0, 0.0, -3.0), vector(0.0, -sqrt(2.0) / 2.0, sqrt(2.0) / 2.0));
    let i = Intersection::new(s(sqrt(2.0)), 2);
    let comps = i.prepare_computations(&r, &w, &Intersections::new(vec![]), &Ieee);
    let found = w.shade_hit(comps, 1, &Ieee);
    same_color(found, color(0.87677, 0.92436, 0.82918));
}

#[test]
fn color_at_with_mutally_reflective_surfaces() {
    let mut w = World::default(&Ieee);
    w.light = Some(point_light(point(0.0, 0.0, 0.0), color(1.0, 1.0, 1.0)));

    let mut lower = Shape::plane();
    let mut lower_material = lower.get_material().clone();
    lower_material.set_reflective(s(1.0));
    lower.set_transform(translation(s(0.0), s(-1.0), s(0.0)), &Ieee);
    lower.set_material(lower_material);
    let mut upper = Shape::plane();
    let mut upper_material = upper.get_material().clone();
    upper_material.set_reflective(s(1.0));
    upper.set_transform(translation(s(0.0), s(1.0), s(0.0)), &Ieee);
    upper.set_material(upper_material);
    w.objects.append(&mut vec![lower, upper]);
    let r = ray(point(0.0, 0.0, 0.0), vector(0.0, 1.0, 0.0));
    let found = w.color_at(&r, 5, &Ieee);
    same_color(found, color(1.9, 1.9, 1.9));
}

#[test]
fn the_refracted_color_with_an_opaque_surface() {
    let w = World::default(&Ieee);
    let r = ray(point(0.0, 0.0, -5.0), vector(0.0, 0.0, 1.0));
    let xs = Intersections::new(vec![Intersection::new(s(4.0), 0), Intersection::new(s(6.0), 0)]);
    let comps = xs[0].prepare_computations(&r, &w, &xs, &Ieee);
    let c = w.refracted_color(&comps, 5, &Ieee);
    same_color(c, color(0.0, 0.0, 0.0));
}

#[test]
fn the_refracted_color_at_the_maximum_recursive_depth() {
    let mut w = World::default(&Ieee);
    w.objects[0] = Shape::glass_sphere();
    let r = ray(point(0.0, 0.0, -5.0), vector(0.0, 0.0, 1.0));
    let xs = Intersections::new(vec![Intersection::new(s(4.0), 0), Intersection::new(s(6.0), 0)]);
    let comps = xs[0].prepare_computations(&r, &w, &xs, &Ieee);
    let c = w.refracted_color(&comps, 0, &Ieee);
    same_color(c, color(0.0, 0.0, 0.0));
}

#[test]
fn the_refracted_color_under_total_internal_reflection() {
    let mut w = World::default(&Ieee);
    w.objects[0] = Shape::glass_sphere();
    let r = ray(point(0.0, 0.0, sqrt(2.0) / 2.0), vector(0.0, 1.0, 0.0));
    let xs = Intersections::new(vec![
        Intersection::new(s(-sqrt(2.0) / 2.0), 0),
        Intersection::new(s(sqrt(2.0) / 2.0), 0),
    ]);
    let comps = xs[1].prepare_computations(&r, &w, &xs, &Ieee);
    let c = w.refracted_color(&comps, 5, &Ieee);
    same_color(c, color(0.0, 0.0, 0.0));
}

#[test]
fn the_refracted_color_with_a_refracted_ray() {
    let mut w = World::default(&Ieee);
    let mut a_material = Material::default();
    a_material.set_ambient(s(1.0));
    a_material.set_pattern(Pattern::test_pattern());

    let a = Shape::with(Shape::sphere, Matrix::identity(), a_material, &Ieee);

    w.objects[0] = a;
    w.objects[1] = Shape::glass_sphere();

    let r = ray(point(0.0, 0.0, 0.1), vector(0.0, 1.0, 0.0));
    let xs = Intersections::new(vec![
        Intersection::new(s(-0.9899), 0),
        Intersection::new(s(-0.4899), 1),
        Intersection::new(s(0.4800), 1),
        Intersection::new(s(0.9899), 0),
    ]);
    let comps = xs[2].prepare_computations(&r, &w, &xs, &Ieee);
    let c = w.refracted_color(&comps, 5, &Ieee);
    same_color(c, color(0.0, 0.99888, 0.04725));
}

#[test]
fn shade_hit_with_a_transparent_material() {
    let mut w = World::default(&Ieee);
    let mut glass = Material::default();
    glass.set_transparency(s(0.5));
    glass.set_refractive_index(s(1.5));

    let floor = Shape::with(Shape::plane, translation(s(0.0), s(-1.0), s(0.0)), glass, &Ieee);
    let mut ball_material = Material::default();
    ball_material.set_color(color(1.0, 0.0, 0.0));
    ball_material.set_ambient(s(0.5));
    let ball = Shape::with(Shape::sphere, translation(s(0.0), s(-3.5), s(-0.5)), ball_material, &Ieee);
    w.objects.append(&mut vec![floor, ball]);
    let r = ray(point(0.0, 0.0, -3.0), vector(0.0, -sqrt(2.0) / 2.0, sqrt(2.0) / 2.0));
    let xs = Intersections::new(vec![Intersection::new(s(sqrt(2.0)), 2)]);
    let comps = xs[0].prepare_computations(&r, &w, &xs, &Ieee);
    let found = w.shade_hit(comps, 5, &Ieee);
    same_color(found, color(0.93642, 0.68642, 0.68642));
}

#[test]
fn shade_hit_with_a_reflective_transparent_material() {
    let mut w = World::default(&Ieee);
    let mut glass = Material::default();
    glass.set_transparency(s(0.5));
    glass.set_reflective(s(0.5));
    glass.set_refractive_index(s(1.5));

    let floor = Shape::with(Shape::plane, translation(s(0.0), s(-1.0), s(0.0)), glass, &Ieee);
    let mut ball_material = Material::default();
    ball_material.set_color(color(1.0, 0.0, 0.0));
    ball_material.set_ambient(s(0.5));
    let ball = Shape::with(Shape::sphere, translation(s(0.0), s(-3.5), s(-0.5)), ball_material, &Ieee);
    w.objects.append(&mut vec![floor, ball]);
    let r = ray(point(0.0, 0.0, -3.0), vector(0.0, -sqrt(2.0) / 2.0, sqrt(2.0) / 2.0));
    let xs = Intersections::new(vec![Intersection::new(s(sqrt(2.0)), 2)]);
    let comps = xs[0].prepare_computations(&r, &w, &xs, &Ieee);
    let found = w.shade_hit(comps, 5, &Ieee);
    same_color(found, color(0.93391, 0.69643, 0.69243));
}

#[test]
fn an_empty_world_is_black_whatever_the_ray() {
    let w = World::new();
    let r = ray(point(1.0, 2.0, 3.0), vector(0.5, -0.5, 0.25));
    let c = w.color_at(&r, 5, &Ieee);
    assert_eq!((c.r.to_bits(), c.g.to_bits(), c.b.to_bits()), (0, 0, 0));
}

#[test]
fn without_a_light_every_point_lies_in_shadow() {
    let mut w = World::default(&Ieee);
    w.light = None;
    assert!(w.is_shadowed(point(0.0, 10.0, 0.0), &Ieee));
    assert!(w.is_shadowed(point(-20.0, 20.0, -20.0), &Ieee));
}

#[test]
fn no_bounce_left_means_no_mirrored_light_however_reflective() {
    let mut w = World::default(&Ieee);
    let mut shape = Shape::plane();
    let mut material = Material::default();
    material.set_reflective(s(1.0));
    shape.set_material(material);
    shape.set_transform(translation(s(0.0), s(-1.0), s(0.0)), &Ieee);
    w.objects.append(&mut vec![shape]);
    let r = ray(point(0.0, 0.0, -3.0), vector(0.0, -sqrt(2.0) / 2.0, sqrt(2.0) / 2.0));
    let i = Intersection::new(s(sqrt(2.0)), 2);
    let comps = i.prepare_computations(&r, &w, &Intersections::new(vec![]), &Ieee);
    let c = w.reflected_color(&comps, 0, &Ieee);
    assert_eq!((c.r.to_bits(), c.g.to_bits(), c.b.to_bits()), (0, 0, 0));
}
