//! A verified core for a bouncing-balls animation.
//!
//! Every geometric quantity is a fixed-point integer: positions are counted
//! in subpixels (`SUBPIXEL` units per pixel) and fractional quantities such
//! as direction components, speeds, radii and alpha channels are counted in
//! thousandths (`UNIT` units per 1.0). A direction component times a speed,
//! both in thousandths, is then exactly a displacement in subpixels.

pub mod ball;
pub mod color;
pub mod num;
pub mod render;
mod rng;
pub mod sim;
pub mod vec2d;
