use vstd::prelude::*;
use crate::arithmetic::{exact, from_usize_of, product_of, round_of, to_u8_of, Arithmetic};
use crate::scalar::Scalar;
use crate::text::{triple, triple_text};
use crate::tuples::Color;

verus! {

/// What can be written out as text.
pub trait PrettyPrint {
    /// The text that stands for the value.
    spec fn printed(&self) -> Seq<char>;

    fn pp(&self) -> (s: String)
        ensures
            s@ == self.printed(),
    ;
}

/// One pixel of an image: three channels of eight bits each.
#[derive(Debug, Clone, Copy, PartialEq, Eq, Structural)]
pub struct Pixel {
    pub r: u8,
    pub g: u8,
    pub b: u8,
}

/// `level` held between `min` and `max`: not below `min`, and, what goes
/// before that, not above `max`.
pub open spec fn held(min: u8, max: u8, level: u8) -> u8 {
    if level < min {
        if min < max {
            min
        } else {
            max
        }
    } else if level < max {
        level
    } else {
        max
    }
}

/// `level` held between `min` and `max`.
pub fn hold(min: u8, max: u8, level: u8) -> (h: u8)
    ensures
        h == held(min, max, level),
        h <= max,
        min <= max ==> min <= h,
{
    let raised: u8 = if level < min {
        min
    } else {
        level
    };
    if raised < max {
        raised
    } else {
        max
    }
}

impl Pixel {
    pub fn new(r: u8, g: u8, b: u8) -> (p: Pixel)
        ensures
            p == (Pixel { r, g, b }),
    {
        Pixel { r, g, b }
    }

    pub fn red() -> (p: Pixel)
        ensures
            p == (Pixel { r: 255, g: 0, b: 0 }),
    {
        Pixel::new(255, 0, 0)
    }

    pub fn green() -> (p: Pixel)
        ensures
            p == (Pixel { r: 0, g: 255, b: 0 }),
    {
        Pixel::new(0, 255, 0)
    }

    pub fn blue() -> (p: Pixel)
        ensures
            p == (Pixel { r: 0, g: 0, b: 255 }),
    {
        Pixel::new(0, 0, 255)
    }

    pub fn black() -> (p: Pixel)
        ensures
            p == (Pixel { r: 0, g: 0, b: 0 }),
    {
        Pixel::new(0, 0, 0)
    }

    pub fn white() -> (p: Pixel)
        ensures
            p == (Pixel { r: 255, g: 255, b: 255 }),
    {
        Pixel::new(255, 255, 255)
    }

    /// The level of one channel: `channel * max`, rounded to a whole number
    /// and cut to the range of a byte, then held between `min` and `max`.
    pub open spec fn level_of<A: Arithmetic>(min: u8, max: u8, channel: Scalar, ar: &A) -> u8 {
        let scaled = product_of(ar, channel, from_usize_of(ar, max as usize));
        held(min, max, to_u8_of(ar, round_of(ar, scaled)))
    }

    /// The pixel that shows `color` where full light is `max`.
    pub open spec fn clamp_of<A: Arithmetic>(min: u8, max: u8, color: Color, ar: &A) -> Pixel {
        Pixel {
            r: Pixel::level_of(min, max, color.r, ar),
            g: Pixel::level_of(min, max, color.g, ar),
            b: Pixel::level_of(min, max, color.b, ar),
        }
    }

    /// The level of one channel.
    pub fn level<A: Arithmetic>(min: u8, max: u8, channel: Scalar, ar: &A) -> (l: u8)
        ensures
            l <= max,
            min <= max ==> min <= l,
            exact(ar) ==> l == Pixel::level_of(min, max, channel, ar),
    {
        let scale = ar.from_usize(max as usize);
        hold(min, max, ar.to_u8(ar.round(ar.product(channel, scale))))
    }

    /// The pixel that shows `color` where full light is `max`: each channel
    /// multiplied by `max`, rounded, and held between `min` and `max`.
    pub fn clamp<A: Arithmetic>(min: u8, max: u8, color: Color, ar: &A) -> (p: Pixel)
        ensures
            p.r <= max && p.g <= max && p.b <= max,
            min <= max ==> min <= p.r && min <= p.g && min <= p.b,
            exact(ar) ==> p == Pixel::clamp_of(min, max, color, ar),
    {
        Pixel {
            r: Pixel::level(min, max, color.r, ar),
            g: Pixel::level(min, max, color.g, ar),
            b: Pixel::level(min, max, color.b, ar),
        }
    }
}

impl PrettyPrint for Pixel {
    /// The three channels in decimal, a blank between them.
    open spec fn printed(&self) -> Seq<char> {
        triple_text(self.r, self.g, self.b)
    }

    fn pp(&self) -> (s: String) {
        triple(self.r, self.g, self.b)
    }
}

} // verus!
