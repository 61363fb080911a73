//! A recursive ray tracer: the colour seen along a ray through a world of
//! spheres and planes under one light, with shadows, mirrored and refracted
//! light.
//!
//! Numbers are IEEE 754 binary32 numbers, held as bit patterns. How two of
//! them compare is decided here; to add or multiply them is left to an
//! [`arithmetic::Arithmetic`] that the caller supplies. Every result is
//! stated as a formula over that arithmetic, and holds of every arithmetic
//! that is a function of its arguments.

pub mod arithmetic;
pub mod camera;
pub mod canvas;
pub mod colors;
pub mod intersections;
pub mod ledger;
pub mod lights;
pub mod materials;
pub mod matrices;
pub mod patterns;
pub mod planes;
pub mod rays;
pub mod scalar;
pub mod shapes;
pub mod spheres;
pub mod text;
pub mod transformations;
pub mod tuples;
pub mod worlds;
