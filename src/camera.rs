use vstd::prelude::*;

verus! {

/// One world unit, in the millionths that positions and speeds are kept in.
pub const UNIT: i64 = 1_000_000;

/// The largest pitch magnitude (89 degrees), in millionths of a degree.
pub const PITCH_LIMIT: i64 = 89_000_000;

/// Slowest and fastest movement speed: 0.1 and 20 units per second.
pub const MIN_SPEED: u64 = 100_000;
pub const MAX_SPEED: u64 = 20_000_000;

/// Pose restored by `reset`: at (0, 0, -3), yaw 90 degrees (looking along
/// +z), pitch 0, speed 2 units per second.
pub const DEFAULT_Z: i64 = -3_000_000;
pub const DEFAULT_YAW: i64 = 90_000_000;
pub const DEFAULT_PITCH: i64 = 0;
pub const DEFAULT_SPEED: u64 = 2_000_000;

/// Pointer-look sensitivity: 0.002 degrees per pixel, in millionths of a
/// degree.
pub const SENSITIVITY: i64 = 2000;

/// Vertical field of view in degrees, and the near and far clip planes in
/// millionths of a unit (0.1 and 100).
pub const FOVY_DEGREES: u32 = 45;
pub const ZNEAR: i64 = 100_000;
pub const ZFAR: i64 = 100_000_000;

/// A 3-vector in millionths of a world unit.
#[derive(Clone, Copy, Debug, PartialEq, Eq, Structural)]
pub struct Vec3 {
    pub x: i64,
    pub y: i64,
    pub z: i64,
}

/// `lo <= v <= hi` forced by clamping.
pub open spec fn clamp(v: int, lo: int, hi: int) -> int {
    if v < lo { lo } else if v > hi { hi } else { v }
}

/// `v` saturated to the range of `i64`.
pub open spec fn saturate(v: int) -> int {
    clamp(v, i64::MIN as int, i64::MAX as int)
}

/// `p` moved by `(dx, dy, dz)`, each component saturated.
pub open spec fn offset(p: Vec3, dx: int, dy: int, dz: int) -> Vec3 {
    Vec3 {
        x: saturate(p.x + dx) as i64,
        y: saturate(p.y + dy) as i64,
        z: saturate(p.z + dz) as i64,
    }
}

pub fn saturating_add(a: i64, d: i128) -> (r: i64)
    requires
        -0x1_0000_0000_0000_0000_0000 <= d <= 0x1_0000_0000_0000_0000_0000,
    ensures
        r == saturate(a + d),
{
    let s: i128 = a as i128 + d;
    if s < i64::MIN as i128 {
        i64::MIN
    } else if s > i64::MAX as i128 {
        i64::MAX
    } else {
        s as i64
    }
}

/// Viewer pose and projection parameters.
///
/// The look-at target is derived from `position`, `yaw` and `pitch`; the
/// aspect ratio is `width / height`.
#[derive(Clone, Copy, Debug)]
pub struct Camera {
    /// In millionths of a unit.
    pub position: Vec3,
    pub width: u32,
    pub height: u32,
    /// Movement speed, in millionths of a unit per second.
    pub speed: u64,
    /// In millionths of a degree, unbounded: the view direction repeats
    /// every full turn.
    pub yaw: i64,
    /// In millionths of a degree, within `[-PITCH_LIMIT, PITCH_LIMIT]`.
    pub pitch: i64,
}

/// The default position, (0, 0, -3).
pub open spec fn default_position() -> Vec3 {
    Vec3 { x: 0, y: 0, z: DEFAULT_Z }
}

impl Camera {
    /// Pitch and speed within their ranges; a positive aspect ratio.
    pub open spec fn wf(&self) -> bool {
        &&& -PITCH_LIMIT <= self.pitch <= PITCH_LIMIT
        &&& MIN_SPEED <= self.speed <= MAX_SPEED
        &&& self.width > 0
        &&& self.height > 0
    }

    /// `self` is at the default pose, with the given viewport.
    pub open spec fn is_default_pose(&self) -> bool {
        &&& self.position == default_position()
        &&& self.yaw == DEFAULT_YAW
        &&& self.pitch == DEFAULT_PITCH
        &&& self.speed == DEFAULT_SPEED
    }

    /// A camera at the default pose for a `width` x `height` viewport.
    pub fn new(width: u32, height: u32) -> (r: Camera)
        requires
            width > 0,
            height > 0,
        ensures
            r.wf(),
            r.is_default_pose(),
            r.width == width,
            r.height == height,
    {
        Camera {
            position: Vec3 { x: 0, y: 0, z: DEFAULT_Z },
            width,
            height,
            speed: DEFAULT_SPEED,
            yaw: DEFAULT_YAW,
            pitch: DEFAULT_PITCH,
        }
    }

    /// Restores the default position, yaw, pitch and speed; the viewport is
    /// kept.
    pub fn reset(&mut self)
        requires
            old(self).wf(),
        ensures
            final(self).wf(),
            final(self).is_default_pose(),
            final(self).width == old(self).width,
            final(self).height == old(self).height,
    {
        self.position = Vec3 { x: 0, y: 0, z: DEFAULT_Z };
        self.yaw = DEFAULT_YAW;
        self.pitch = DEFAULT_PITCH;
        self.speed = DEFAULT_SPEED;
    }

    /// Changes the speed by half of `amount` (millionths of a scroll step),
    /// clamped to `[MIN_SPEED, MAX_SPEED]`.
    pub fn apply_zoom_delta(&mut self, amount: i64)
        requires
            old(self).wf(),
        ensures
            final(self).wf(),
            final(self).speed == clamp(
                old(self).speed + amount / 2,
                MIN_SPEED as int,
                MAX_SPEED as int,
            ),
            final(self).position == old(self).position,
            final(self).yaw == old(self).yaw,
            final(self).pitch == old(self).pitch,
            final(self).width == old(self).width,
            final(self).height == old(self).height,
    {
        let a: i128 = amount as i128;
        let half: i128 = if a >= 0 { a / 2 } else { -((-a + 1) / 2) };
        let s: i128 = self.speed as i128 + half;
        let v: u64 = if s < MIN_SPEED as i128 {
            MIN_SPEED
        } else if s > MAX_SPEED as i128 {
            MAX_SPEED
        } else {
            s as u64
        };
        self.speed = v;
    }
}

} // verus!
