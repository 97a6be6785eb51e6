//! A parallax-scrolling 2D scene: bouncing foreground sprites, a patrolling
//! camera carrier, layer visibility toggles and the GPU layout of the parallax
//! background material, all over fixed-point integers.
//!
//! Lengths are held in millionths of a world unit and time in microseconds, so
//! a speed given in whole units per second moves `speed * dt_us` millionths in
//! one frame, with no rounding.

pub mod motion;
pub mod camera;
pub mod input;
pub mod parallax;
pub mod scene;
