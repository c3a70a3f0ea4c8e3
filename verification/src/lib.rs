//! The decisions of a small ray caster, and its raster.
//!
//! A ray caster sends one ray through every pixel of an image, finds the
//! nearest shape that the ray meets, adds up the light that falls on the
//! point it met, and stores the colour. Its arithmetic is done in double
//! precision by the program that uses this crate. Everything that is
//! decided about the numbers is decided here, on their bit patterns, and
//! proved to be what its contract says:
//!
//! - `double`: order and equality of double-precision bit patterns;
//! - `intersection`: which root of a ray-sphere intersection counts;
//! - `nearest`: which of the shapes along a ray is hit first;
//! - `shade`: the light gathered at a point, capped at one per channel
//!   after every light, and its conversion to bytes;
//! - `pixel`, `frame`, `render`: the RGBA buffer, row by row, and how the
//!   shaded pixels fill it;
//! - `encode`: the buffer as a PNG stream, through the `png` crate.
pub mod double;
pub mod encode;
pub mod frame;
pub mod intersection;
pub mod nearest;
pub mod pixel;
pub mod render;
pub mod shade;
