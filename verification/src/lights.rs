use vstd::prelude::*;
use crate::tuples::{Color, Point};

verus! {

/// A light without size that shines the same in every direction.
#[derive(Clone, Copy, Debug)]
pub struct PointLight {
    pub position: Point,
    pub intensity: Color,
}

/// The kinds of light a world can hold.
#[derive(Clone, Copy, Debug)]
pub enum Light {
    Point(PointLight),
}

impl PointLight {
    pub fn new(position: Point, intensity: Color) -> (l: PointLight)
        ensures
            l.position == position,
            l.intensity == intensity,
    {
        PointLight { position, intensity }
    }
}

/// What shading asks of a light.
pub trait LightProperties {
    /// Where the light stands.
    spec fn place(&self) -> Point;

    /// How much light it gives in each channel.
    spec fn strength(&self) -> Color;

    fn position(&self) -> (p: Point)
        ensures
            p == self.place(),
    ;

    fn intensity(&self) -> (c: Color)
        ensures
            c == self.strength(),
    ;
}

impl LightProperties for PointLight {
    open spec fn place(&self) -> Point {
        self.position
    }

    open spec fn strength(&self) -> Color {
        self.intensity
    }

    fn position(&self) -> (p: Point) {
        self.position
    }

    fn intensity(&self) -> (c: Color) {
        self.intensity
    }
}

impl LightProperties for Light {
    open spec fn place(&self) -> Point {
        match self {
            Light::Point(light) => light.position,
        }
    }

    open spec fn strength(&self) -> Color {
        match self {
            Light::Point(light) => light.intensity,
        }
    }

    fn position(&self) -> (p: Point) {
        match self {
            Light::Point(light) => light.position,
        }
    }

    fn intensity(&self) -> (c: Color) {
        match self {
            Light::Point(light) => light.intensity,
        }
    }
}

} // verus!
