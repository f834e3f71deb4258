//! Progressive reveal of a sampled quadratic curve.
//!
//! The crate computes the sample points of the curve `y = x^2 / 100` over the
//! width of a canvas, the number of points that are revealed once a given
//! number of frames has passed, and the drawing commands of each frame: the
//! axes and their labels on the first frame, the revealed part of the curve
//! on every frame.
//!
//! Canvas bounds are whole units and every coordinate is an exact fraction,
//! so what the contracts state holds without tolerance. Nothing here draws:
//! a host rounds the coordinates and turns the commands into pixels.

pub mod animation;
pub mod curve;
pub mod geometry;
