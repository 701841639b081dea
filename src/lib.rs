//! Control plane of an interactive fractal viewer: turns keyboard, pointer
//! and scroll input into a camera pose and a block of scene parameters,
//! once per frame.
//!
//! All quantities are fixed-point integers: lengths and speeds in millionths
//! of a world unit, angles in millionths of a degree, durations in
//! nanoseconds, the fractal power in billionths.
pub mod keys;
pub mod camera;
pub mod uniforms;
pub mod input;
pub mod viewer;
pub mod laws;
