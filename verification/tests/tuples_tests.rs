#![allow(dead_code)]
#![allow(unused_imports)]

use raytracer::arithmetic::Arithmetic;
use raytracer::camera::Camera;
use raytracer::intersections::{Computations, Intersection, Intersections};
use raytracer::lights::{Light, LightProperties, PointLight};
use raytracer::materials::{lightning, Material};
use raytracer::matrices::{inverse, transpose, Matrix};
use raytracer::patterns::Pattern;
use raytracer::planes::Plane;
use raytracer::rays::Ray;
use raytracer::scalar::Scalar;
use raytracer::shapes::{HasMaterial, HasTransform, Intersects, Shape, TransformData};
use raytracer::spheres::Sphere;
use raytracer::transformations::{scaling, translation};
use raytracer::tuples::mytuples::Tuple;
use raytracer::tuples::{Color, Point, Vector, EPSILON};
use raytracer::worlds::World;

const PI: f32 = std::f32::consts::PI;

/// The arithmetic of the machine.
struct Ieee;

fn f(s: Scalar) -> f32 {
    f32::from_bits(s.to_bits())
}

fn s(v: f32) -> Scalar {
    Scalar::from_bits(v.to_bits())
}

impl Arithmetic for Ieee {
    fn sum(&self, a: Scalar, b: Scalar) -> Scalar {
        s(f(a) + f(b))
    }
    fn difference(&self, a: Scalar, b: Scalar) -> Scalar {
        s(f(a) - f(b))
    }
    fn product(&self, a: Scalar, b: Scalar) -> Scalar {
        s(f(a) * f(b))
    }
    fn quotient(&self, a: Scalar, b: Scalar) -> Scalar {
        s(f(a) / f(b))
    }
    fn remainder(&self, a: Scalar, b: Scalar) -> Scalar {
        s(f(a) % f(b))
    }
    fn sqrt(&self, a: Scalar) -> Scalar {
        s(f(a).sqrt())
    }
    fn powi(&self, a: Scalar, n: i32) -> Scalar {
        s(f(a).powi(n))
    }
    fn powf(&self, a: Scalar, b: Scalar) -> Scalar {
        s(f(a).powf(f(b)))
    }
    fn tan(&self, a: Scalar) -> Scalar {
        s(f(a).tan())
    }
    fn floor(&self, a: Scalar) -> Scalar {
        s(f(a).floor())
    }
    fn round(&self, a: Scalar) -> Scalar {
        s(f(a).round())
    }
    fn from_usize(&self, n: usize) -> Scalar {
        s(n as f32)
    }
    fn to_u8(&self, a: Scalar) -> u8 {
        f(a) as u8
    }
}

fn sqrt(v: f32) -> f32 {
    v.sqrt()
}

fn point(x: f32, y: f32, z: f32) -> Point {
    Point { x: s(x), y: s(y), z: s(z) }
}

fn vector(x: f32, y: f32, z: f32) -> Vector {
    Vector { x: s(x), y: s(y), z: s(z) }
}

fn color(r: f32, g: f32, b: f32) -> Color {
    Color { r: s(r), g: s(g), b: s(b) }
}

fn ray(origin: Point, direction: Vector) -> Ray {
    Ray { origin, direction }
}

fn point_light(position: Point, intensity: Color) -> Light {
    Light::Point(PointLight { position, intensity })
}

fn matrix<const R: usize, const C: usize>(rows: [[f32; C]; R]) -> Matrix<R, C> {
    let mut m: Matrix<R, C> = Matrix::init(s(0.0));
    for r in 0..R {
        for c in 0..C {
            m.set(r, c, s(rows[r][c]));
        }
    }
    m
}

fn rotation_x(r: f32) -> Matrix<4, 4> {
    matrix([
        [1.0, 0.0, 0.0, 0.0],
        [0.0, r.cos(), -r.sin(), 0.0],
        [0.0, r.sin(), r.cos(), 0.0],
        [0.0, 0.0, 0.0, 1.0],
    ])
}

fn rotation_y(r: f32) -> Matrix<4, 4> {
    matrix([
        [r.cos(), 0.0, r.sin(), 0.0],
        [0.0, 1.0, 0.0, 0.0],
        [-r.sin(), 0.0, r.cos(), 0.0],
        [0.0, 0.0, 0.0, 1.0],
    ])
}

fn rotation_z(r: f32) -> Matrix<4, 4> {
    matrix([
        [r.cos(), -r.sin(), 0.0, 0.0],
        [r.sin(), r.cos(), 0.0, 0.0],
        [0.0, 0.0, 1.0, 0.0],
        [0.0, 0.0, 0.0, 1.0],
    ])
}

fn same_point(a: Point, b: Point) {
    assert!(a.approx_eq(&b, &Ieee), "{:?} is not {:?}", shown(a.x, a.y, a.z), shown(b.x, b.y, b.z));
}

fn same_vector(a: Vector, b: Vector) {
    assert!(a.approx_eq(&b, &Ieee), "{:?} is not {:?}", shown(a.x, a.y, a.z), shown(b.x, b.y, b.z));
}

fn same_color(a: Color, b: Color) {
    assert!(a.approx_eq(&b, &Ieee), "{:?} is not {:?}", shown(a.r, a.g, a.b), shown(b.r, b.g, b.b));
}

fn shown(a: Scalar, b: Scalar, c: Scalar) -> (f32, f32, f32) {
    (f(a), f(b), f(c))
}

fn same_matrix<const R: usize, const C: usize>(a: Matrix<R, C>, b: Matrix<R, C>) {
    assert!(a.equals(&b), "{:?} is not {:?}", cells(&a), cells(&b));
}

fn close_matrix(a: Matrix<4, 4>, b: Matrix<4, 4>) {
    for r in 0..4 {
        for c in 0..4 {
            let (x, y) = (f(a.get(r, c)), f(b.get(r, c)));
            assert!((x - y).abs() <= 0.001, "{:?} is not {:?}", cells(&a), cells(&b));
        }
    }
}

fn cells<const R: usize, const C: usize>(m: &Matrix<R, C>) -> Vec<Vec<f32>> {
    (0..R).map(|r| (0..C).map(|c| f(m.get(r, c))).collect()).collect()
}

fn same_material(a: &Material, b: &Material) {
    same_color(a.color, b.color);
    assert_eq!(f(a.ambient), f(b.ambient));
    assert_eq!(f(a.diffuse), f(b.diffuse));
    assert_eq!(f(a.specular), f(b.specular));
    assert_eq!(f(a.shininess), f(b.shininess));
    assert_eq!(a.pattern.is_some(), b.pattern.is_some());
    assert_eq!(f(a.reflective), f(b.reflective));
    assert_eq!(f(a.transparency), f(b.transparency));
    assert_eq!(f(a.refractive_index), f(b.refractive_index));
}

fn same_option_matrix(a: Option<Matrix<4, 4>>, b: Option<Matrix<4, 4>>) {
    match (a, b) {
        (None, None) => (),
        (Some(x), Some(y)) => same_matrix(x, y),
        _ => panic!("one of the two has no inverse"),
    }
}

fn same_shape(a: &Shape, b: &Shape) {
    assert_eq!(matches!(a, Shape::Sphere(_)), matches!(b, Shape::Sphere(_)));
    assert_eq!(matches!(a, Shape::Plane(_)), matches!(b, Shape::Plane(_)));
    same_matrix(a.get_transform(), b.get_transform());
    same_option_matrix(a.get_inverse_transform(), b.get_inverse_transform());
    same_material(&a.get_material(), &b.get_material());
}

#[test]
fn tuples_a_tuple_with_w_1_is_a_point() {
    let tuple = point(4.3, -4.2, 3.1);
    assert_eq!(tuple.is_point(), true);
    assert_eq!(tuple.is_vector(), false);
}

#[test]
fn tuples_a_tuple_with_w_0_is_a_vector() {
    let tuple = vector(4.3, -4.2, 3.1);
    assert_eq!(tuple.is_point(), false);
    assert_eq!(tuple.is_vector(), true);
}

#[test]
fn tuples_creates_tuples_with_w_1() {
    let tuple = point(4.3, -4.2, 3.1);
    same_point(point(4.3, -4.2, 3.1), tuple);
    assert_eq!(f(tuple.w()), 1.0);
}

#[test]
fn tuples_creates_vector_with_w_0() {
    let tuple = vector(4.3, -4.2, 3.1);
    same_vector(vector(4.3, -4.2, 3.1), tuple);
    assert_eq!(f(tuple.w()), 0.0);
}

#[test]
fn tuples_adding_two_tuples() {
    let a1 = point(3.0, -2.0, 5.0);
    let a2 = vector(-2.0, 3.0, 1.0);
    same_point(a1.plus(a2, &Ieee), point(1.0, 1.0, 6.0));
}

#[test]
fn tuples_subtracting_two_points() {
    let p1 = point(3.0, 2.0, 1.0);
    let p2 = point(5.0, 6.0, 7.0);
    same_vector(p1.minus(p2, &Ieee), vector(-2.0, -4.0, -6.0));
}

#[test]
fn tuples_subtracting_a_vector_from_a_point() {
    let p = point(3.0, 2.0, 1.0);
    let v = vector(5.0, 6.0, 7.0);
    same_point(p.minus_vector(v, &Ieee), point(-2.0, -4.0, -6.0));
}

#[test]
fn tuples_subtracting_two_vectors() {
    let v1 = vector(3.0, 2.0, 1.0);
    let v2 = vector(5.0, 6.0, 7.0);
    same_vector(v1.minus(v2, &Ieee), vector(-2.0, -4.0, -6.0));
}

#[test]
fn tuples_subtracting_a_vector_from_the_zero_vector() {
    let zero = vector(0.0, 0.0, 0.0);
    let v = vector(1.0, -2.0, 3.0);
    same_vector(zero.minus(v, &Ieee), vector(-1.0, 2.0, -3.0));
}

fn construct_point_and_vector(x: f32, y: f32, z: f32) -> (Point, Vector) {
    (point(x, y, z), vector(x, y, z))
}

#[test]
fn tuples_negating_a_tuple() {
    let (a, b) = construct_point_and_vector(1.0, -2.0, 3.0);
    same_point(-a, point(-1.0, 2.0, -3.0));
    same_vector(-b, vector(-1.0, 2.0, -3.0));
    assert_eq!(shown(a.neg().x, a.neg().y, a.neg().z), (-1.0, 2.0, -3.0));
    assert_eq!(shown(b.neg().x, b.neg().y, b.neg().z), (-1.0, 2.0, -3.0));
}

#[test]
fn tuples_multiplying_a_tuple_by_a_scalar() {
    let (a, b) = construct_point_and_vector(1.0, -2.0, 3.0);
    same_point(a.times(s(3.5), &Ieee), point(3.5, -7.0, 10.5));
    same_vector(b.times(s(3.5), &Ieee), vector(3.5, -7.0, 10.5));
}

#[test]
fn tuples_multiplying_a_tuple_by_a_fraction() {
    let (a, b) = construct_point_and_vector(1.0, -2.0, 3.0);
    same_point(a.times(s(0.5), &Ieee), point(0.5, -1.0, 1.5));
    same_vector(b.times(s(0.5), &Ieee), vector(0.5, -1.0, 1.5));
}

#[test]
fn tuples_dividing_a_tuple_by_a_scalar() {
    let (a, b) = construct_point_and_vector(1.0, -2.0, 3.0);
    same_point(a.divided_by(s(2.0), &Ieee), point(0.5, -1.0, 1.5));
    same_vector(b.divided_by(s(2.0), &Ieee), vector(0.5, -1.0, 1.5));
}

#[test]
fn tuples_computing_the_magnitude_of_vector_1_0_0() {
    let v = vector(1.0, 0.0, 0.0);
    assert_eq!(f(v.magnitude(&Ieee)), 1.0);
}

#[test]
fn tuples_computing_the_magnitude_of_vector_0_1_0() {
    let v = vector(0.0, 1.0, 0.0);
    assert_eq!(f(v.magnitude(&Ieee)), 1.0);
}

#[test]
fn tuples_computing_the_magnitude_of_vector_0_0_1() {
    let v = vector(0.0, 0.0, 1.0);
    assert_eq!(f(v.magnitude(&Ieee)), 1.0);
}

#[test]
fn tuples_computing_the_magnitude_of_vector_1_2_3() {
    let v = vector(1.0, 2.0, 3.0);
    assert_eq!(f(v.magnitude(&Ieee)), (14.0_f32).sqrt());
}

#[test]
fn tuples_computing_the_magnitude_of_vector_neg_1_2_3() {
    let v = vector(-1.0, -2.0, -3.0);
    assert_eq!(f(v.magnitude(&Ieee)), (14.0_f32).sqrt());
}

#[test]
fn tuples_normalizing_vector_4_0_0_gives_1_0_0() {
    let v = vector(4.0, 0.0, 0.0);
    same_vector(v.normalize(&Ieee), vector(1.0, 0.0, 0.0));
    let n = v.normalize(&Ieee);
    assert_eq!(shown(n.x, n.y, n.z), (1.0, 0.0, 0.0));
}

#[test]
fn tuples_normalizing_vector_1_2_3() {
    let v = vector(1.0, 2.0, 3.0);
    same_vector(v.normalize(&Ieee), vector(0.26726, 0.53452, 0.80178));
    let n = v.normalize(&Ieee);
    assert!((f(n.x) - 0.26726).abs() < 0.00001);
    assert!((f(n.y) - 0.53452).abs() < 0.00001);
    assert!((f(n.z) - 0.80178).abs() < 0.00001);
}

#[test]
fn tuples_the_magnitude_of_a_normalized_vector() {
    let v = vector(1.0, 2.0, 3.0);
    let norm = v.normalize(&Ieee);
    assert_eq!((1.0 - f(norm.magnitude(&Ieee))).abs() <= f32::from_bits(EPSILON), true);
}

#[test]
fn tuples_the_dot_product_of_two_tuples() {
    let a = vector(1.0, 2.0, 3.0);
    let b = vector(2.0, 3.0, 4.0);
    assert_eq!(f(a.dot(&b, &Ieee)), 20.0);
}

#[test]
fn tuples_the_cross_product_of_two_vectors() {
    let a = vector(1.0, 2.0, 3.0);
    let b = vector(2.0, 3.0, 4.0);
    same_vector(a.cross(&b, &Ieee), vector(-1.0, 2.0, -1.0));
    same_vector(b.cross(&a, &Ieee), vector(1.0, -2.0, 1.0));
    let c = a.cross(&b, &Ieee);
    assert_eq!(shown(c.x, c.y, c.z), (-1.0, 2.0, -1.0));
}

#[test]
fn tuples_reflecting_a_vector_approaching_at_45_degree() {
    let v = vector(1.0, -1.0, 0.0);
    let n = vector(0.0, 1.0, 0.0);
    let r = v.reflect(&n, &Ieee);
    same_vector(r, vector(1.0, 1.0, 0.0));
    assert_eq!(shown(r.x, r.y, r.z), (1.0, 1.0, 0.0));
}

#[test]
fn tuples_reflecting_a_vector_off_a_slanted_surface() {
    let v = vector(0.0, -1.0, 0.0);
    let n = vector(2.0_f32.sqrt() / 2.0, 2.0_f32.sqrt() / 2.0, 0.0);
    let r = v.reflect(&n, &Ieee);
    same_vector(r, vector(1.0, 0.0, 0.0));
    assert!((f(r.x) - 1.0).abs() < 0.00001 && f(r.y).abs() < 0.00001 && f(r.z) == 0.0);
}

#[test]
fn coordinates_are_read_and_written_by_index() {
    let mut p = point(1.0, 2.0, 3.0);
    assert_eq!((f(p.get(0)), f(p.get(1)), f(p.get(2)), f(p.get(3))), (1.0, 2.0, 3.0, 1.0));
    p.set(0, s(4.0));
    p.set(1, s(5.0));
    p.set(2, s(6.0));
    p.set(3, s(7.0));
    p.set(9, s(8.0));
    assert_eq!((f(p.x()), f(p.y()), f(p.z()), f(p.w())), (4.0, 5.0, 6.0, 1.0));
    let mut v = vector(1.0, 2.0, 3.0);
    v.set_x(s(-1.0));
    v.set_y(s(-2.0));
    v.set_z(s(-3.0));
    assert_eq!((f(v.get(0)), f(v.get(1)), f(v.get(2)), f(v.get(3))), (-1.0, -2.0, -3.0, 0.0));
}

#[test]
fn equality_allows_a_hundredth_and_no_more() {
    assert!(point(1.0, 2.0, 3.0).approx_eq(&point(1.009, 1.991, 3.0), &Ieee));
    assert!(!point(1.0, 2.0, 3.0).approx_eq(&point(1.011, 2.0, 3.0), &Ieee));
    assert!(vector(1.0, 2.0, 3.0).approx_eq(&vector(1.0, 2.0, 2.991), &Ieee));
    assert!(!vector(1.0, 2.0, 3.0).approx_eq(&vector(1.0, 2.0, 2.98), &Ieee));
    assert!(color(0.5, 0.5, 0.5).approx_eq(&color(0.509, 0.5, 0.491), &Ieee));
    assert!(!color(0.5, 0.5, 0.5).approx_eq(&color(0.5, 0.52, 0.5), &Ieee));
    assert!(!point(f32::NAN, 2.0, 3.0).approx_eq(&point(f32::NAN, 2.0, 3.0), &Ieee));
}

#[test]
fn colors_add_subtract_and_multiply_channel_by_channel() {
    let a = color(0.9, 0.6, 0.75);
    let b = color(0.7, 0.1, 0.25);
    same_color(a.plus(b, &Ieee), color(1.6, 0.7, 1.0));
    same_color(a.minus(b, &Ieee), color(0.2, 0.5, 0.5));
    same_color(color(0.2, 0.3, 0.4).times(s(2.0), &Ieee), color(0.4, 0.6, 0.8));
    same_color(color(1.0, 0.2, 0.4).blend(color(0.9, 1.0, 0.1), &Ieee), color(0.9, 0.2, 0.04));
    let sum = color(0.5, 0.25, 0.125).plus(color(0.5, 0.25, 0.125), &Ieee);
    assert_eq!(shown(sum.r, sum.g, sum.b), (1.0, 0.5, 0.25));
    assert_eq!(shown(Color::black().r, Color::black().g, Color::black().b), (0.0, 0.0, 0.0));
    assert_eq!(shown(Color::white().r, Color::white().g, Color::white().b), (1.0, 1.0, 1.0));
}

#[test]
fn the_origin_and_the_zero_vector_are_zero() {
    let p = Point::default();
    let v = Vector::default();
    assert_eq!((p.x.to_bits(), p.y.to_bits(), p.z.to_bits()), (0, 0, 0));
    assert_eq!((v.x.to_bits(), v.y.to_bits(), v.z.to_bits()), (0, 0, 0));
    assert_eq!(f32::from_bits(EPSILON), 0.001);
    assert_eq!(f32::from_bits(raytracer::tuples::TOLERANCE), 0.01);
    assert_eq!(f(raytracer::tuples::epsilon()), 0.001);
    assert_eq!(f(raytracer::tuples::tolerance()), 0.01);
}
