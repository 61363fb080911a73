use vstd::prelude::*;
use crate::arithmetic::{
    difference_of,
    exact,
    from_usize_of,
    product_of,
    quotient_of,
    sum_of,
    tan_of,
    Arithmetic,
};
use crate::canvas::{Canvas, Color};
use crate::colors::Pixel;
use crate::matrices::{inverse, is_identity, is_inverse_of, Matrix};
use crate::rays::Ray;
use crate::scalar::Scalar;
use crate::tuples::Point;
use crate::worlds::World;

verus! {

/// How many bounces of light a rendered pixel follows.
pub const DEFAULT_DEPTH: usize = 5;

/// An eye that looks at a world through a canvas of `HSIZE` columns and
/// `VSIZE` rows, one unit in front of it.
#[derive(Debug, Clone, Copy)]
pub struct Camera<const HSIZE: usize, const VSIZE: usize> {
    field_of_view: Scalar,
    transform: Matrix<4, 4>,
    inverse_transform: Option<Matrix<4, 4>>,
    pixel_size: Scalar,
    half_width: Scalar,
    half_height: Scalar,
}

/// Whether the colour `c` of a canvas is that of the pixel `p`.
pub open spec fn shows(c: Color, p: Pixel) -> bool {
    c.channels() == (p.r, p.g, p.b)
}

/// Two cells of a grid of `cols` columns lie at different places where they
/// differ in their row or in their column.
pub proof fn lemma_cells_apart(r: int, c: int, y: int, x: int, cols: int)
    requires
        0 <= c < cols,
        0 <= x < cols,
        0 <= r,
        0 <= y,
        r != y || c != x,
    ensures
        r * cols + c != y * cols + x,
{
    if r < y {
        assert(r * cols + cols <= y * cols) by (nonlinear_arith)
            requires
                r + 1 <= y,
                0 <= cols,
        ;
    } else if y < r {
        assert(y * cols + cols <= r * cols) by (nonlinear_arith)
            requires
                y + 1 <= r,
                0 <= cols,
        ;
    }
}

impl<const HSIZE: usize, const VSIZE: usize> Camera<HSIZE, VSIZE> {
    /// The angle that the camera sees, in radians.
    pub closed spec fn angle(&self) -> Scalar {
        self.field_of_view
    }

    /// The matrix last set.
    pub closed spec fn matrix(&self) -> Matrix<4, 4> {
        self.transform
    }

    /// The inverse kept beside the matrix, if there is one.
    pub closed spec fn kept_inverse(&self) -> Option<Matrix<4, 4>> {
        self.inverse_transform
    }

    /// The width of a pixel, half the width and half the height of the
    /// canvas, in this order.
    pub closed spec fn sizes(&self) -> (Scalar, Scalar, Scalar) {
        (self.pixel_size, self.half_width, self.half_height)
    }

    /// The sizes of the canvas of a camera that sees the angle
    /// `field_of_view`. Half the canvas measures the tangent of half the
    /// angle along its longer side, and that divided or multiplied by the
    /// aspect ratio `HSIZE / VSIZE` along the other; a pixel is as wide as
    /// the canvas divided by `HSIZE`.
    pub open spec fn sizes_of<A: Arithmetic>(field_of_view: Scalar, ar: &A) -> (Scalar, Scalar, Scalar) {
        let two = Scalar { bits: 0x4000_0000 };
        let half_view = tan_of(ar, quotient_of(ar, field_of_view, two));
        let aspect = quotient_of(ar, from_usize_of(ar, HSIZE), from_usize_of(ar, VSIZE));
        let (half_width, half_height) = if (Scalar { bits: 0x3f80_0000 }).at_most(aspect) {
            (half_view, quotient_of(ar, half_view, aspect))
        } else {
            (product_of(ar, half_view, aspect), half_view)
        };
        (
            quotient_of(ar, product_of(ar, half_width, two), from_usize_of(ar, HSIZE)),
            half_width,
            half_height,
        )
    }

    /// A camera at the origin that looks along the negative z axis, with no
    /// inverse kept.
    pub fn new<A: Arithmetic>(field_of_view: Scalar, ar: &A) -> (c: Self)
        ensures
            c.angle() == field_of_view,
            is_identity(c.matrix()),
            c.kept_inverse().is_none(),
            exact(ar) ==> c.sizes() == Self::sizes_of(field_of_view, ar),
    {
        let half_view = ar.tan(ar.quotient(field_of_view, Scalar::two()));
        let aspect = ar.quotient(ar.from_usize(HSIZE), ar.from_usize(VSIZE));

        let (half_width, half_height) = if aspect.ge(Scalar::one()) {
            (half_view, ar.quotient(half_view, aspect))
        } else {
            (ar.product(half_view, aspect), half_view)
        };

        let pixel_size = ar.quotient(ar.product(half_width, Scalar::two()), ar.from_usize(HSIZE));

        Camera {
            field_of_view: field_of_view,
            transform: Matrix::identity(),
            inverse_transform: None,
            pixel_size,
            half_width: half_width,
            half_height: half_height,
        }
    }

    pub fn field_of_view(&self) -> (a: Scalar)
        ensures
            a == self.angle(),
    {
        self.field_of_view
    }

    pub fn transform(&self) -> (m: Matrix<4, 4>)
        ensures
            m == self.matrix(),
    {
        self.transform
    }

    pub fn inverse_transform(&self) -> (m: Option<Matrix<4, 4>>)
        ensures
            m == self.kept_inverse(),
    {
        self.inverse_transform
    }

    /// The width of one pixel on the canvas.
    pub fn pixel_size(&self) -> (s: Scalar)
        ensures
            s == self.sizes().0,
    {
        self.pixel_size
    }

    /// Half the width of the canvas.
    pub fn half_width(&self) -> (s: Scalar)
        ensures
            s == self.sizes().1,
    {
        self.half_width
    }

    /// Half the height of the canvas.
    pub fn half_height(&self) -> (s: Scalar)
        ensures
            s == self.sizes().2,
    {
        self.half_height
    }

    /// The ray from the eye through the middle of the pixel in column `px`
    /// and row `py`. The pixel lies on the canvas at z = -1, half a pixel and
    /// `px` pixels from its left edge and as far from its upper edge in `py`;
    /// the eye and the pixel are mapped by the inverse kept, where there is
    /// one, and the ray runs from the one to the other at length one.
    pub open spec fn ray_for_pixel_of<A: Arithmetic>(&self, px: usize, py: usize, ar: &A) -> Ray {
        let half = Scalar { bits: 0x3f00_0000 };
        let (pixel_size, half_width, half_height) = self.sizes();
        let xoffset = product_of(ar, sum_of(ar, from_usize_of(ar, px), half), pixel_size);
        let yoffset = product_of(ar, sum_of(ar, from_usize_of(ar, py), half), pixel_size);
        let seen = Point {
            x: difference_of(ar, half_width, xoffset),
            y: difference_of(ar, half_height, yoffset),
            z: Scalar { bits: 0xbf80_0000 },
        };
        let eye = Point { x: Scalar { bits: 0 }, y: Scalar { bits: 0 }, z: Scalar { bits: 0 } };
        let (pixel, origin) = match self.kept_inverse() {
            None => (seen, eye),
            Some(inverse_transform) => (
                inverse_transform.times_point_of(seen, ar),
                inverse_transform.times_point_of(eye, ar),
            ),
        };
        Ray { origin, direction: pixel.minus_of(origin, ar).normalize_of(ar) }
    }

    /// The pixel in column `x` and row `y` of the picture of `world`, with
    /// full light at 255: the colour seen along the ray through the pixel,
    /// followed for `DEFAULT_DEPTH` bounces.
    pub open spec fn pixel_at_of<A: Arithmetic>(&self, world: World, x: usize, y: usize, ar: &A) -> Pixel {
        Pixel::clamp_of(
            0,
            255,
            world.color_at_of(self.ray_for_pixel_of(x, y, ar), DEFAULT_DEPTH, ar),
            ar,
        )
    }

    /// The ray from the eye through the middle of the pixel in column `px`
    /// and row `py`.
    pub fn ray_for_pixel<A: Arithmetic>(&self, px: usize, py: usize, ar: &A) -> (r: Ray)
        ensures
            self.kept_inverse().is_none() ==> r.origin.x.bits == 0 && r.origin.y.bits == 0
                && r.origin.z.bits == 0,
            exact(ar) ==> r == self.ray_for_pixel_of(px, py, ar),
    {
        let xoffset = ar.product(ar.sum(ar.from_usize(px), Scalar::half()), self.pixel_size);
        let yoffset = ar.product(ar.sum(ar.from_usize(py), Scalar::half()), self.pixel_size);
        let world_x = ar.difference(self.half_width, xoffset);
        let world_y = ar.difference(self.half_height, yoffset);
        let mut pixel = Point { x: world_x, y: world_y, z: Scalar::minus_one() };
        let mut origin = Point::default();
        match self.inverse_transform {
            None => (),
            Some(inverse_transform) => {
                pixel = inverse_transform.times_point(pixel, ar);
                origin = inverse_transform.times_point(origin, ar);
            },
        }
        let direction = pixel.minus(origin, ar).normalize(ar);
        Ray { origin, direction }
    }

    /// Stores `transform`, and beside it its inverse, or none where it has
    /// none.
    pub fn set_transform<A: Arithmetic>(&mut self, transform: Matrix<4, 4>, ar: &A)
        ensures
            final(self).matrix() == transform,
            final(self).angle() == old(self).angle(),
            final(self).sizes() == old(self).sizes(),
            exact(ar) ==> is_inverse_of(final(self).kept_inverse(), transform, ar),
    {
        self.transform = transform;
        self.inverse_transform = inverse(&transform, ar);
    }

    /// The pixel in column `x` and row `y` of the picture of `world`, with
    /// full light at 255.
    pub fn pixel_at<A: Arithmetic>(&self, world: &World, x: usize, y: usize, ar: &A) -> (p: Pixel)
        ensures
            exact(ar) ==> p == self.pixel_at_of(*world, x, y, ar),
    {
        let ray = self.ray_for_pixel(x, y, ar);
        let color = world.color_at(&ray, DEFAULT_DEPTH, ar);
        Pixel::clamp(0, 255, color, ar)
    }

    /// Row `y` of the picture of `world`: one pixel for each of the `HSIZE`
    /// columns, from the left.
    pub fn render_row<A: Arithmetic>(&self, world: &World, y: usize, ar: &A) -> (row: Vec<Pixel>)
        ensures
            row@.len() == HSIZE,
            exact(ar) ==> forall|x: int|
                0 <= x < HSIZE ==> #[trigger] row@[x] == self.pixel_at_of(*world, x as usize, y, ar),
    {
        let mut row: Vec<Pixel> = Vec::new();
        let mut x: usize = 0;
        while x < HSIZE
            invariant
                x <= HSIZE,
                row@.len() == x,
                exact(ar) ==> forall|i: int|
                    0 <= i < x ==> #[trigger] row@[i] == self.pixel_at_of(*world, i as usize, y, ar),
            decreases HSIZE - x,
        {
            row.push(self.pixel_at(world, x, y, ar));
            x += 1;
        }
        row
    }

    /// The picture made of `rows`, the uppermost first: rows that were
    /// rendered apart from each other, put together.
    pub fn assemble(rows: &Vec<Vec<Pixel>>) -> (image: Canvas<VSIZE, HSIZE>)
        requires
            VSIZE * HSIZE <= usize::MAX,
            rows@.len() == VSIZE,
            forall|y: int| 0 <= y < VSIZE ==> (#[trigger] rows@[y])@.len() == HSIZE,
        ensures
            image@.len() == VSIZE * HSIZE,
            forall|y: int, x: int|
                0 <= y < VSIZE && 0 <= x < HSIZE ==> shows(#[trigger] image@[y * HSIZE + x], rows@[y]@[x]),
    {
        let mut image: Canvas<VSIZE, HSIZE> = Canvas::new();
        let mut y: usize = 0;
        while y < VSIZE
            invariant
                y <= VSIZE,
                rows@.len() == VSIZE,
                forall|r: int| 0 <= r < VSIZE ==> (#[trigger] rows@[r])@.len() == HSIZE,
                image@.len() == VSIZE * HSIZE,
                forall|r: int, c: int|
                    0 <= r < y && 0 <= c < HSIZE ==> shows(#[trigger] image@[r * HSIZE + c], rows@[r]@[c]),
            decreases VSIZE - y,
        {
            let mut x: usize = 0;
            while x < HSIZE
                invariant
                    y < VSIZE,
                    x <= HSIZE,
                    rows@.len() == VSIZE,
                    forall|r: int| 0 <= r < VSIZE ==> (#[trigger] rows@[r])@.len() == HSIZE,
                    image@.len() == VSIZE * HSIZE,
                    forall|r: int, c: int|
                        0 <= r < y && 0 <= c < HSIZE ==> shows(
                            #[trigger] image@[r * HSIZE + c],
                            rows@[r]@[c],
                        ),
                    forall|c: int|
                        0 <= c < x ==> shows(#[trigger] image@[y * HSIZE + c], rows@[y as int]@[c]),
                decreases HSIZE - x,
            {
                assert(rows@[y as int]@.len() == HSIZE);
                let pixel = rows[y][x];
                let ghost before = image@;
                proof {
                    crate::canvas::lemma_cell_inside(y as int, x as int, VSIZE as int, HSIZE as int);
                }
                image.set(Color::of_pixel(pixel), y, x);
                proof {
                    assert forall|r: int, c: int| 0 <= r < y && 0 <= c < HSIZE implies #[trigger] image@[r
                        * HSIZE + c] == before[r * HSIZE + c] by {
                        crate::canvas::lemma_cell_inside(r, c, VSIZE as int, HSIZE as int);
                        lemma_cells_apart(r, c, y as int, x as int, HSIZE as int);
                    }
                    assert forall|c: int| 0 <= c < x implies #[trigger] image@[y * HSIZE + c] == before[y
                        * HSIZE + c] by {
                        crate::canvas::lemma_cell_inside(y as int, c, VSIZE as int, HSIZE as int);
                        lemma_cells_apart(y as int, c, y as int, x as int, HSIZE as int);
                    }
                }
                x += 1;
            }
            y += 1;
        }
        image
    }

    /// The picture of `world`, `VSIZE` rows of `HSIZE` pixels: through each
    /// pixel one ray, followed for `DEFAULT_DEPTH` bounces.
    pub fn render<A: Arithmetic>(&self, world: &World, ar: &A) -> (image: Canvas<VSIZE, HSIZE>)
        requires
            VSIZE * HSIZE <= usize::MAX,
        ensures
            image@.len() == VSIZE * HSIZE,
            exact(ar) ==> forall|y: int, x: int|
                0 <= y < VSIZE && 0 <= x < HSIZE ==> shows(
                    #[trigger] image@[y * HSIZE + x],
                    self.pixel_at_of(*world, x as usize, y as usize, ar),
                ),
    {
        let mut image: Canvas<VSIZE, HSIZE> = Canvas::new();
        let mut y: usize = 0;
        while y < VSIZE
            invariant
                y <= VSIZE,
                image@.len() == VSIZE * HSIZE,
                exact(ar) ==> forall|r: int, c: int|
                    0 <= r < y && 0 <= c < HSIZE ==> shows(
                        #[trigger] image@[r * HSIZE + c],
                        self.pixel_at_of(*world, c as usize, r as usize, ar),
                    ),
            decreases VSIZE - y,
        {
            let mut x: usize = 0;
            while x < HSIZE
                invariant
                    y < VSIZE,
                    x <= HSIZE,
                    image@.len() == VSIZE * HSIZE,
                    exact(ar) ==> forall|r: int, c: int|
                        0 <= r < y && 0 <= c < HSIZE ==> shows(
                            #[trigger] image@[r * HSIZE + c],
                            self.pixel_at_of(*world, c as usize, r as usize, ar),
                        ),
                    exact(ar) ==> forall|c: int|
                        0 <= c < x ==> shows(
                            #[trigger] image@[y * HSIZE + c],
                            self.pixel_at_of(*world, c as usize, y, ar),
                        ),
                decreases HSIZE - x,
            {
                let pixel = self.pixel_at(world, x, y, ar);
                let ghost before = image@;
                proof {
                    crate::canvas::lemma_cell_inside(y as int, x as int, VSIZE as int, HSIZE as int);
                }
                image.set(Color::of_pixel(pixel), y, x);
                proof {
                    assert forall|r: int, c: int| 0 <= r < y && 0 <= c < HSIZE implies #[trigger] image@[r
                        * HSIZE + c] == before[r * HSIZE + c] by {
                        crate::canvas::lemma_cell_inside(r, c, VSIZE as int, HSIZE as int);
                        lemma_cells_apart(r, c, y as int, x as int, HSIZE as int);
                    }
                    assert forall|c: int| 0 <= c < x implies #[trigger] image@[y * HSIZE + c] == before[y
                        * HSIZE + c] by {
                        crate::canvas::lemma_cell_inside(y as int, c, VSIZE as int, HSIZE as int);
                        lemma_cells_apart(y as int, c, y as int, x as int, HSIZE as int);
                    }
                }
                x += 1;
            }
            y += 1;
        }
        image
    }
}

} // verus!
