#![allow(dead_code)]
#![allow(unused_imports)]

use raytracer::arithmetic::Arithmetic;
use raytracer::camera::Camera;
use raytracer::intersections::{Computations, Intersection, Intersections};
use raytracer::lights::{Light, LightProperties, PointLight};
use raytracer::materials::{lightning, Material};
use raytracer::matrices::{inverse, transpose, Matrix};
use raytracer::patterns::Pattern;
use raytracer::planes::Plane;
use raytracer::rays::Ray;
use raytracer::scalar::Scalar;
use raytracer::shapes::{HasMaterial, HasTransform, Intersects, Shape, TransformData};
use raytracer::spheres::Sphere;
use raytracer::transformations::{scaling, translation};
use raytracer::tuples::mytuples::Tuple;
use raytracer::tuples::{Color, Point, Vector, EPSILON};
use raytracer::worlds::World;

const PI: f32 = std::f32::consts::PI;

/// The arithmetic of the machine.
struct Ieee;

fn f(s: Scalar) -> f32 {
    f32::from_bits(s.to_bits())
}

fn s(v: f32) -> Scalar {
    Scalar::from_bits(v.to_bits())
}

impl Arithmetic for Ieee {
    fn sum(&self, a: Scalar, b: Scalar) -> Scalar {
        s(f(a) + f(b))
    }
    fn difference(&self, a: Scalar, b: Scalar) -> Scalar {
        s(f(a) - f(b))
    }
    fn product(&self, a: Scalar, b: Scalar) -> Scalar {
        s(f(a) * f(b))
    }
    fn quotient(&self, a: Scalar, b: Scalar) -> Scalar {
        s(f(a) / f(b))
    }
    fn remainder(&self, a: Scalar, b: Scalar) -> Scalar {
        s(f(a) % f(b))
    }
    fn sqrt(&self, a: Scalar) -> Scalar {
        s(f(a).sqrt())
    }
    fn powi(&self, a: Scalar, n: i32) -> Scalar {
        s(f(a).powi(n))
    }
    fn powf(&self, a: Scalar, b: Scalar) -> Scalar {
        s(f(a).powf(f(b)))
    }
    fn tan(&self, a: Scalar) -> Scalar {
        s(f(a).tan())
    }
    fn floor(&self, a: Scalar) -> Scalar {
        s(f(a).floor())
    }
    fn round(&self, a: Scalar) -> Scalar {
        s(f(a).round())
    }
    fn from_usize(&self, n: usize) -> Scalar {
        s(n as f32)
    }
    fn to_u8(&self, a: Scalar) -> u8 {
        f(a) as u8
    }
}

fn sqrt(v: f32) -> f32 {
    v.sqrt()
}

fn point(x: f32, y: f32, z: f32) -> Point {
    Point { x: s(x), y: s(y), z: s(z) }
}

fn vector(x: f32, y: f32, z: f32) -> Vector {
    Vector { x: s(x), y: s(y), z: s(z) }
}

fn color(r: f32, g: f32, b: f32) -> Color {
    Color { r: s(r), g: s(g), b: s(b) }
}

fn ray(origin: Point, direction: Vector) -> Ray {
    Ray { origin, direction }
}

fn point_light(position: Point, intensity: Color) -> Light {
    Light::Point(PointLight { position, intensity })
}

fn matrix<const R: usize, const C: usize>(rows: [[f32; C]; R]) -> Matrix<R, C> {
    let mut m: Matrix<R, C> = Matrix::init(s(0.0));
    for r in 0..R {
        for c in 0..C {
            m.set(r, c, s(rows[r][c]));
        }
    }
    m
}

fn rotation_x(r: f32) -> Matrix<4, 4> {
    matrix([
        [1.0, 0.0, 0.0, 0.0],
        [0.0, r.cos(), -r.sin(), 0.0],
        [0.0, r.sin(), r.cos(), 0.0],
        [0.0, 0.0, 0.0, 1.0],
    ])
}

fn rotation_y(r: f32) -> Matrix<4, 4> {
    matrix([
        [r.cos(), 0.0, r.sin(), 0.0],
        [0.0, 1.0, 0.0, 0.0],
        [-r.sin(), 0.0, r.cos(), 0.0],
        [0.0, 0.0, 0.0, 1.0],
    ])
}

fn rotation_z(r: f32) -> Matrix<4, 4> {
    matrix([
        [r.cos(), -r.sin(), 0.0, 0.0],
        [r.sin(), r.cos(), 0.0, 0.0],
        [0.0, 0.0, 1.0, 0.0],
        [0.0, 0.0, 0.0, 1.0],
    ])
}

fn same_point(a: Point, b: Point) {
    assert!(a.approx_eq(&b, &Ieee), "{:?} is not {:?}", shown(a.x, a.y, a.z), shown(b.x, b.y, b.z));
}

fn same_vector(a: Vector, b: Vector) {
    assert!(a.approx_eq(&b, &Ieee), "{:?} is not {:?}", shown(a.x, a.y, a.z), shown(b.x, b.y, b.z));
}

fn same_color(a: Color, b: Color) {
    assert!(a.approx_eq(&b, &Ieee), "{:?} is not {:?}", shown(a.r, a.g, a.b), shown(b.r, b.g, b.b));
}

fn shown(a: Scalar, b: Scalar, c: Scalar) -> (f32, f32, f32) {
    (f(a), f(b), f(c))
}

fn same_matrix<const R: usize, const C: usize>(a: Matrix<R, C>, b: Matrix<R, C>) {
    assert!(a.equals(&b), "{:?} is not {:?}", cells(&a), cells(&b));
}

fn close_matrix(a: Matrix<4, 4>, b: Matrix<4, 4>) {
    for r in 0..4 {
        for c in 0..4 {
            let (x, y) = (f(a.get(r, c)), f(b.get(r, c)));
            assert!((x - y).abs() <= 0.001, "{:?} is not {:?}", cells(&a), cells(&b));
        }
    }
}

fn cells<const R: usize, const C: usize>(m: &Matrix<R, C>) -> Vec<Vec<f32>> {
    (0..R).map(|r| (0..C).map(|c| f(m.get(r, c))).collect()).collect()
}

fn same_material(a: &Material, b: &Material) {
    same_color(a.color, b.color);
    assert_eq!(f(a.ambient), f(b.ambient));
    assert_eq!(f(a.diffuse), f(b.diffuse));
    assert_eq!(f(a.specular), f(b.specular));
    assert_eq!(f(a.shininess), f(b.shininess));
    assert_eq!(a.pattern.is_some(), b.pattern.is_some());
    assert_eq!(f(a.reflective), f(b.reflective));
    assert_eq!(f(a.transparency), f(b.transparency));
    assert_eq!(f(a.refractive_index), f(b.refractive_index));
}

fn same_option_matrix(a: Option<Matrix<4, 4>>, b: Option<Matrix<4, 4>>) {
    match (a, b) {
        (None, None) => (),
        (Some(x), Some(y)) => same_matrix(x, y),
        _ => panic!("one of the two has no inverse"),
    }
}

fn same_shape(a: &Shape, b: &Shape) {
    assert_eq!(matches!(a, Shape::Sphere(_)), matches!(b, Shape::Sphere(_)));
    assert_eq!(matches!(a, Shape::Plane(_)), matches!(b, Shape::Plane(_)));
    same_matrix(a.get_transform(), b.get_transform());
    same_option_matrix(a.get_inverse_transform(), b.get_inverse_transform());
    same_material(&a.get_material(), &b.get_material());
}

use raytracer::canvas::{Canvas, PpmFormat, PrettyPrint, Serialize};
use raytracer::colors::{hold, Pixel};
use raytracer::text::{decimal, digit_str, triple};

#[test]
fn numbers_are_written_in_decimal() {
    assert_eq!(decimal(0), "0");
    assert_eq!(decimal(7), "7");
    assert_eq!(decimal(10), "10");
    assert_eq!(decimal(255), "255");
    assert_eq!(decimal(900), "900");
    assert_eq!(decimal(1234567890), "1234567890");
    assert_eq!(decimal(usize::MAX), format!("{}", usize::MAX));
    for d in 0..10 {
        assert_eq!(digit_str(d), format!("{}", d));
    }
    assert_eq!(triple(255, 0, 17), "255 0 17");
}

#[test]
fn a_pixel_is_printed_as_three_numbers() {
    assert_eq!(raytracer::colors::PrettyPrint::pp(&Pixel::new(1, 20, 255)), "1 20 255");
    assert_eq!(raytracer::colors::PrettyPrint::pp(&Pixel::black()), "0 0 0");
    assert_eq!(raytracer::canvas::Color::white().pp(), "255 255 255");
    assert_eq!(raytracer::canvas::Color::red().pp(), "255 0 0");
    assert_eq!(raytracer::canvas::Color::green().rgb(), (0, 255, 0));
    assert_eq!(raytracer::canvas::Color::blue().rgb(), (0, 0, 255));
    assert_eq!(raytracer::canvas::Color::of_pixel(Pixel::new(3, 2, 1)).rgb(), (3, 2, 1));
    assert_eq!(PpmFormat::P3.pp(), "P3");
    assert_eq!(PpmFormat::P6.pp(), "P6");
}

#[test]
fn a_level_is_held_between_its_bounds() {
    assert_eq!(hold(0, 255, 97), 97);
    assert_eq!(hold(10, 200, 5), 10);
    assert_eq!(hold(10, 200, 250), 200);
    assert_eq!(hold(10, 200, 10), 10);
    assert_eq!(hold(10, 200, 200), 200);
    assert_eq!(hold(200, 10, 100), 10);
    assert_eq!(hold(200, 10, 250), 10);
}

#[test]
fn a_color_is_clamped_to_a_pixel() {
    assert_eq!(Pixel::clamp(0, 255, color(0.38066, 0.47583, 0.2855), &Ieee), Pixel::new(97, 121, 73));
    assert_eq!(Pixel::clamp(0, 255, color(1.5, -0.5, 1.0), &Ieee), Pixel::new(255, 0, 255));
    assert_eq!(Pixel::clamp(0, 255, color(f32::NAN, 0.5, 0.0), &Ieee), Pixel::new(0, 128, 0));
    assert_eq!(Pixel::clamp(10, 100, color(0.0, 0.5, 1.0), &Ieee), Pixel::new(10, 50, 100));
    assert_eq!(Pixel::level(0, 255, s(0.5), &Ieee), 128);
}

#[test]
fn a_new_canvas_is_black_and_pixels_are_set_by_row_and_column() {
    let mut c: Canvas<2, 3> = Canvas::new();
    for row in 0..2 {
        for col in 0..3 {
            assert_eq!(c.get(row, col).rgb(), (0, 0, 0));
        }
    }
    c.set(raytracer::canvas::Color::red(), 0, 1);
    c.set(raytracer::canvas::Color::of_pixel(Pixel::new(1, 2, 3)), 1, 2);
    assert_eq!(c.get(0, 1).rgb(), (255, 0, 0));
    assert_eq!(c.get(1, 2).rgb(), (1, 2, 3));
    assert_eq!(c.get(0, 0).rgb(), (0, 0, 0));
    assert_eq!(c.to_bytes(), vec![0, 0, 0, 255, 0, 0, 0, 0, 0, 0, 0, 0, 0, 0, 0, 1, 2, 3]);
    assert_eq!(c.pixels_text(), "0 0 0 255 0 0 0 0 0 \n0 0 0 0 0 0 1 2 3 \n");
}

#[test]
fn a_canvas_is_written_as_a_portable_pixmap() {
    let mut c: Canvas<2, 3> = Canvas::new();
    c.set(raytracer::canvas::Color::white(), 1, 0);
    assert_eq!(Canvas::<2, 3>::header(PpmFormat::P3, 255), "P3\n3 2\n255");
    assert_eq!(Canvas::<550, 900>::header(PpmFormat::P6, 200), "P6\n900 550\n200");
    let text = c.ppm(PpmFormat::P3, 255);
    assert_eq!(
        String::from_utf8(text).unwrap(),
        "P3\n3 2\n255\n0 0 0 0 0 0 0 0 0 \n255 255 255 0 0 0 0 0 0 \n\n"
    );
    let raw = c.ppm(PpmFormat::P6, 255);
    let mut expected: Vec<u8> = "P6\n3 2\n255\n".bytes().collect();
    expected.extend_from_slice(&[0, 0, 0, 0, 0, 0, 0, 0, 0, 255, 255, 255, 0, 0, 0, 0, 0, 0]);
    assert_eq!(raw, expected);
}

#[test]
fn an_empty_canvas_has_a_head_and_no_pixels() {
    let c: Canvas<0, 4> = Canvas::new();
    assert_eq!(c.to_bytes(), Vec::<u8>::new());
    assert_eq!(c.pixels_text(), "");
    assert_eq!(String::from_utf8(c.ppm(PpmFormat::P3, 9)).unwrap(), "P3\n4 0\n9\n\n");
    let d: Canvas<2, 0> = Canvas::new();
    assert_eq!(d.pixels_text(), "\n\n");
}
