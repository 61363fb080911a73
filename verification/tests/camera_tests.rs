#![allow(dead_code)]
#![allow(unused_imports)]

use raytracer::arithmetic::Arithmetic;
use raytracer::camera::Camera;
use raytracer::intersections::{Computations, Intersection, Intersections};
use raytracer::lights::{Light, LightProperties, PointLight};
use raytracer::materials::{lightning, Material};
use raytracer::matrices::{inverse, transpose, Matrix};
use raytracer::patterns::Pattern;
use raytracer::planes::Plane;
use raytracer::rays::Ray;
use raytracer::scalar::Scalar;
use raytracer::shapes::{HasMaterial, HasTransform, Intersects, Shape, TransformData};
use raytracer::spheres::Sphere;
use raytracer::transformations::{scaling, translation};
use raytracer::tuples::mytuples::Tuple;
use raytracer::tuples::{Color, Point, Vector, EPSILON};
use raytracer::worlds::World;

const PI: f32 = std::f32::consts::PI;

/// The arithmetic of the machine.
struct Ieee;

fn f(s: Scalar) -> f32 {
    f32::from_bits(s.to_bits())
}

fn s(v: f32) -> Scalar {
    Scalar::from_bits(v.to_bits())
}

impl Arithmetic for Ieee {
    fn sum(&self, a: Scalar, b: Scalar) -> Scalar {
        s(f(a) + f(b))
    }
    fn difference(&self, a: Scalar, b: Scalar) -> Scalar {
        s(f(a) - f(b))
    }
    fn product(&self, a: Scalar, b: Scalar) -> Scalar {
        s(f(a) * f(b))
    }
    fn quotient(&self, a: Scalar, b: Scalar) -> Scalar {
        s(f(a) / f(b))
    }
    fn remainder(&self, a: Scalar, b: Scalar) -> Scalar {
        s(f(a) % f(b))
    }
    fn sqrt(&self, a: Scalar) -> Scalar {
        s(f(a).sqrt())
    }
    fn powi(&self, a: Scalar, n: i32) -> Scalar {
        s(f(a).powi(n))
    }
    fn powf(&self, a: Scalar, b: Scalar) -> Scalar {
        s(f(a).powf(f(b)))
    }
    fn tan(&self, a: Scalar) -> Scalar {
        s(f(a).tan())
    }
    fn floor(&self, a: Scalar) -> Scalar {
        s(f(a).floor())
    }
    fn round(&self, a: Scalar) -> Scalar {
        s(f(a).round())
    }
    fn from_usize(&self, n: usize) -> Scalar {
        s(n as f32)
    }
    fn to_u8(&self, a: Scalar) -> u8 {
        f(a) as u8
    }
}

fn sqrt(v: f32) -> f32 {
    v.sqrt()
}

fn point(x: f32, y: f32, z: f32) -> Point {
    Point { x: s(x), y: s(y), z: s(z) }
}

fn vector(x: f32, y: f32, z: f32) -> Vector {
    Vector { x: s(x), y: s(y), z: s(z) }
}

fn color(r: f32, g: f32, b: f32) -> Color {
    Color { r: s(r), g: s(g), b: s(b) }
}

fn ray(origin: Point, direction: Vector) -> Ray {
    Ray { origin, direction }
}

fn point_light(position: Point, intensity: Color) -> Light {
    Light::Point(PointLight { position, intensity })
}

fn matrix<const R: usize, const C: usize>(rows: [[f32; C]; R]) -> Matrix<R, C> {
    let mut m: Matrix<R, C> = Matrix::init(s(0.0));
    for r in 0..R {
        for c in 0..C {
            m.set(r, c, s(rows[r][c]));
        }
    }
    m
}

fn rotation_x(r: f32) -> Matrix<4, 4> {
    matrix([
        [1.0, 0.0, 0.0, 0.0],
        [0.0, r.cos(), -r.sin(), 0.0],
        [0.0, r.sin(), r.cos(), 0.0],
        [0.0, 0.0, 0.0, 1.0],
    ])
}

fn rotation_y(r: f32) -> Matrix<4, 4> {
    matrix([
        [r.cos(), 0.0, r.sin(), 0.0],
        [0.0, 1.0, 0.0, 0.0],
        [-r.sin(), 0.0, r.cos(), 0.0],
        [0.0, 0.0, 0.0, 1.0],
    ])
}

fn rotation_z(r: f32) -> Matrix<4, 4> {
    matrix([
        [r.cos(), -r.sin(), 0.0, 0.0],
        [r.sin(), r.cos(), 0.0, 0.0],
        [0.0, 0.0, 1.0, 0.0],
        [0.0, 0.0, 0.0, 1.0],
    ])
}

fn same_point(a: Point, b: Point) {
    assert!(a.approx_eq(&b, &Ieee), "{:?} is not {:?}", shown(a.x, a.y, a.z), shown(b.x, b.y, b.z));
}

fn same_vector(a: Vector, b: Vector) {
    assert!(a.approx_eq(&b, &Ieee), "{:?} is not {:?}", shown(a.x, a.y, a.z), shown(b.x, b.y, b.z));
}

fn same_color(a: Color, b: Color) {
    assert!(a.approx_eq(&b, &Ieee), "{:?} is not {:?}", shown(a.r, a.g, a.b), shown(b.r, b.g, b.b));
}

fn shown(a: Scalar, b: Scalar, c: Scalar) -> (f32, f32, f32) {
    (f(a), f(b), f(c))
}

fn same_matrix<const R: usize, const C: usize>(a: Matrix<R, C>, b: Matrix<R, C>) {
    assert!(a.equals(&b), "{:?} is not {:?}", cells(&a), cells(&b));
}

fn close_matrix(a: Matrix<4, 4>, b: Matrix<4, 4>) {
    for r in 0..4 {
        for c in 0..4 {
            let (x, y) = (f(a.get(r, c)), f(b.get(r, c)));
            assert!((x - y).abs() <= 0.001, "{:?} is not {:?}", cells(&a), cells(&b));
        }
    }
}

fn cells<const R: usize, const C: usize>(m: &Matrix<R, C>) -> Vec<Vec<f32>> {
    (0..R).map(|r| (0..C).map(|c| f(m.get(r, c))).collect()).collect()
}

fn same_material(a: &Material, b: &Material) {
    same_color(a.color, b.color);
    assert_eq!(f(a.ambient), f(b.ambient));
    assert_eq!(f(a.diffuse), f(b.diffuse));
    assert_eq!(f(a.specular), f(b.specular));
    assert_eq!(f(a.shininess), f(b.shininess));
    assert_eq!(a.pattern.is_some(), b.pattern.is_some());
    assert_eq!(f(a.reflective), f(b.reflective));
    assert_eq!(f(a.transparency), f(b.transparency));
    assert_eq!(f(a.refractive_index), f(b.refractive_index));
}

fn same_option_matrix(a: Option<Matrix<4, 4>>, b: Option<Matrix<4, 4>>) {
    match (a, b) {
        (None, None) => (),
        (Some(x), Some(y)) => same_matrix(x, y),
        _ => panic!("one of the two has no inverse"),
    }
}

fn same_shape(a: &Shape, b: &Shape) {
    assert_eq!(matches!(a, Shape::Sphere(_)), matches!(b, Shape::Sphere(_)));
    assert_eq!(matches!(a, Shape::Plane(_)), matches!(b, Shape::Plane(_)));
    same_matrix(a.get_transform(), b.get_transform());
    same_option_matrix(a.get_inverse_transform(), b.get_inverse_transform());
    same_material(&a.get_material(), &b.get_material());
}

use raytracer::camera::DEFAULT_DEPTH;
use raytracer::canvas::Canvas;
use raytracer::colors::Pixel;

#[test]
fn constructing_a_camera() {
    const HSIZE: usize = 160;
    const VSIZE: usize = 120;
    let field_of_view = PI / 2.0;
    let c: Camera<HSIZE, VSIZE> = Camera::new(s(field_of_view), &Ieee);
    assert_eq!(f(c.field_of_view()), field_of_view);
    same_matrix(c.transform(), Matrix::identity());
    assert!(c.inverse_transform().is_none());
}

#[test]
fn the_pixel_size_for_a_horizontal_canvas() {
    const HSIZE: usize = 200;
    const VSIZE: usize = 125;
    let field_of_view = PI / 2.0;
    let c: Camera<HSIZE, VSIZE> = Camera::new(s(field_of_view), &Ieee);
    assert_eq!(f(c.pixel_size()), 0.01);
}

#[test]
fn the_pixel_size_for_a_vertical_canvas() {
    const HSIZE: usize = 125;
    const VSIZE: usize = 200;
    let field_of_view = PI / 2.0;
    let c: Camera<HSIZE, VSIZE> = Camera::new(s(field_of_view), &Ieee);
    assert_eq!(f(c.pixel_size()), 0.01);
}

#[test]
fn constructing_a_ray_through_the_center_of_the_canvas() {
    let c: Camera<201, 101> = Camera::new(s(PI / 2.0), &Ieee);
    let r = c.ray_for_pixel(100, 50, &Ieee);
    same_point(r.origin, point(0.0, 0.0, 0.0));
    same_vector(r.direction, vector(0.0, 0.0, -1.0));
}

#[test]
fn constructing_a_ray_through_the_corner_of_the_canvas() {
    let c: Camera<201, 101> = Camera::new(s(PI / 2.0), &Ieee);
    let r = c.ray_for_pixel(0, 0, &Ieee);
    same_point(r.origin, point(0.0, 0.0, 0.0));
    same_vector(r.direction, vector(0.66519, 0.33259, -0.66851));
    assert!((f(r.direction.x) - 0.66519).abs() < 0.0001);
    assert!((f(r.direction.y) - 0.33259).abs() < 0.0001);
    assert!((f(r.direction.z) + 0.66851).abs() < 0.0001);
}

#[test]
fn constructing_a_ray_when_the_camera_is_transformed() {
    let mut c: Camera<201, 101> = Camera::new(s(PI / 2.0), &Ieee);
    c.set_transform(rotation_y(PI / 4.0).times(translation(s(0.0), s(-2.0), s(5.0)), &Ieee), &Ieee);
    let r = c.ray_for_pixel(100, 50, &Ieee);
    same_point(r.origin, point(0.0, 2.0, -5.0));
    same_vector(r.direction, vector(2.0_f32.sqrt() / 2.0, 0.0, -2.0_f32.sqrt() / 2.0));
}

#[test]
fn the_halves_of_the_canvas_follow_the_aspect_ratio() {
    let wide: Camera<200, 100> = Camera::new(s(PI / 2.0), &Ieee);
    assert!((f(wide.half_width()) - 1.0).abs() < 0.00001);
    assert!((f(wide.half_height()) - 0.5).abs() < 0.00001);
    let tall: Camera<100, 200> = Camera::new(s(PI / 2.0), &Ieee);
    assert!((f(tall.half_width()) - 0.5).abs() < 0.00001);
    assert!((f(tall.half_height()) - 1.0).abs() < 0.00001);
}

#[test]
fn rendering_a_world_with_a_camera() {
    let w = World::default(&Ieee);
    let mut c: Camera<11, 11> = Camera::new(s(PI / 2.0), &Ieee);
    let from = translation(s(0.0), s(0.0), s(5.0));
    let turned = scaling(s(-1.0), s(1.0), s(-1.0)).times(from, &Ieee);
    c.set_transform(turned, &Ieee);
    let image: Canvas<11, 11> = c.render(&w, &Ieee);
    let seen = w.color_at(&c.ray_for_pixel(5, 5, &Ieee), DEFAULT_DEPTH, &Ieee);
    same_color(seen, color(0.38066, 0.47583, 0.2855));
    let middle = image.get(5, 5);
    assert_eq!(middle.rgb(), (97, 121, 73));
    let corner = image.get(0, 0);
    assert_eq!(corner.rgb(), (0, 0, 0));
    let row = c.render_row(&w, 5, &Ieee);
    assert_eq!(row.len(), 11);
    assert_eq!(row[5], Pixel::new(97, 121, 73));
    for x in 0..11 {
        assert_eq!(image.get(5, x).rgb(), (row[x].r, row[x].g, row[x].b));
        assert_eq!(c.pixel_at(&w, x, 5, &Ieee), row[x]);
    }
    assert_eq!(DEFAULT_DEPTH, 5);
    let rows: Vec<Vec<Pixel>> = (0..11).map(|y| c.render_row(&w, y, &Ieee)).collect();
    let put_together = Camera::<11, 11>::assemble(&rows);
    for y in 0..11 {
        for x in 0..11 {
            assert_eq!(put_together.get(y, x).rgb(), image.get(y, x).rgb());
        }
    }
}
