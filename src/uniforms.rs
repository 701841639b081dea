use vstd::prelude::*;
use crate::camera::{Vec3, DEFAULT_Z};

verus! {

/// Fractal power bounds, 1 and 20, in billionths.
pub const MIN_POWER: u64 = 1_000_000_000;
pub const MAX_POWER: u64 = 20_000_000_000;
pub const DEFAULT_POWER: u64 = 8_000_000_000;

/// Iteration-count bounds.
pub const MIN_ITERATIONS: u32 = 8;
pub const MAX_ITERATIONS: u32 = 256;
pub const DEFAULT_ITERATIONS: u32 = 64;

/// The fractal type that cycles through all variants.
pub const AUTO_CYCLE: u32 = 99;

/// Scene parameters handed to the renderer each frame. The view and
/// projection matrices are built from the camera by the renderer's side.
#[derive(Clone, Copy, Debug)]
pub struct Uniforms {
    /// Time since start, in nanoseconds.
    pub time: u64,
    /// In billionths.
    pub fractal_power: u64,
    pub fractal_iterations: u32,
    pub fractal_type: u32,
    /// Mirror of the camera position, in millionths of a unit.
    pub camera_pos: Vec3,
}

/// Display name of a fractal type.
pub open spec fn fractal_name(t: u32) -> Seq<char> {
    if t == 0 {
        "Mandelbulb"@
    } else if t == 1 {
        "Julia Set"@
    } else if t == 2 {
        "Menger Sponge"@
    } else if t == 3 {
        "Kleinian"@
    } else if t == 4 {
        "Apollonian"@
    } else if t == 5 {
        "Mandelbox"@
    } else if t == AUTO_CYCLE {
        "Auto-cycle"@
    } else {
        "Unknown"@
    }
}

impl Uniforms {
    /// Power and iteration count within their bounds.
    pub open spec fn wf(&self) -> bool {
        &&& MIN_POWER <= self.fractal_power <= MAX_POWER
        &&& MIN_ITERATIONS <= self.fractal_iterations <= MAX_ITERATIONS
    }

    /// Time zero, power 8, 64 iterations, the first fractal type, and the
    /// camera's default position.
    pub fn new() -> (r: Uniforms)
        ensures
            r.wf(),
            r.time == 0,
            r.fractal_power == DEFAULT_POWER,
            r.fractal_iterations == DEFAULT_ITERATIONS,
            r.fractal_type == 0,
            r.camera_pos == (Vec3 { x: 0, y: 0, z: DEFAULT_Z }),
    {
        Uniforms {
            time: 0,
            fractal_power: DEFAULT_POWER,
            fractal_iterations: DEFAULT_ITERATIONS,
            fractal_type: 0,
            camera_pos: Vec3 { x: 0, y: 0, z: DEFAULT_Z },
        }
    }

    /// Display name of the current fractal type.
    pub fn get_fractal_name(&self) -> (r: &'static str)
        ensures
            r@ == fractal_name(self.fractal_type),
    {
        match self.fractal_type {
            0 => "Mandelbulb",
            1 => "Julia Set",
            2 => "Menger Sponge",
            3 => "Kleinian",
            4 => "Apollonian",
            5 => "Mandelbox",
            99 => "Auto-cycle",
            _ => "Unknown",
        }
    }
}

} // verus!
