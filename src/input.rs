use vstd::prelude::*;
use crate::camera::{
    clamp, offset, saturate, saturating_add, Camera, Vec3, PITCH_LIMIT, SENSITIVITY,
    UNIT,
};
use crate::keys::{Key, KeySet};
use crate::uniforms::{Uniforms, AUTO_CYCLE, MAX_ITERATIONS, MAX_POWER, MIN_ITERATIONS, MIN_POWER};

verus! {

/// Nanoseconds in a second.
pub const SECOND: u64 = 1_000_000_000;

/// A pointer button.
#[derive(Clone, Copy, Debug, PartialEq, Eq, Structural)]
pub enum MouseButton {
    Left,
    Right,
    Middle,
    Other,
}

/// One wheel movement, vertical component only.
#[derive(Clone, Copy, Debug, PartialEq, Eq, Structural)]
pub enum ScrollDelta {
    /// In thousandths of a line.
    Lines(i32),
    /// In thousandths of a pixel.
    Pixels(i32),
}

/// An input event delivered by the window system.
#[derive(Clone, Copy, Debug, PartialEq, Eq, Structural)]
pub enum InputEvent {
    /// A key with a known code; `None` for one that no action uses.
    Key { key: Option<Key>, pressed: bool },
    Button { button: MouseButton, pressed: bool },
    Wheel(ScrollDelta),
    /// Pointer position in whole pixels.
    CursorMoved { x: i32, y: i32 },
    Resized { width: u32, height: u32 },
    CloseRequested,
    RedrawRequested,
    Other,
}

/// Pointer grab mode to request from the window system.
#[derive(Clone, Copy, Debug, PartialEq, Eq, Structural)]
pub enum CursorGrab {
    Confined,
    Released,
}

/// What the caller must do after an event was handled.
#[derive(Clone, Copy, Debug, PartialEq, Eq, Structural)]
pub struct EventResponse {
    /// The event was consumed by input handling.
    pub handled: bool,
    /// A grab change to request; its outcome goes to `grab_finished`.
    pub grab: Option<CursorGrab>,
    /// A one-line status report is due.
    pub print_status: bool,
}

/// Scroll input in millionths of a scroll step: half a step per line, a
/// hundredth per pixel.
pub open spec fn scroll_amount(d: ScrollDelta) -> int {
    match d {
        ScrollDelta::Lines(m) => m * 500,
        ScrollDelta::Pixels(m) => m * 10,
    }
}

/// Converts line and pixel wheel input to one scroll unit.
pub fn normalize_scroll(d: ScrollDelta) -> (r: i64)
    ensures
        r == scroll_amount(d),
{
    match d {
        ScrollDelta::Lines(m) => m as i64 * 500,
        ScrollDelta::Pixels(m) => m as i64 * 10,
    }
}

/// 1 when `k` is held, else 0.
pub open spec fn held(keys: Set<Key>, k: Key) -> int {
    if keys.contains(k) { 1 } else { 0 }
}

/// Movement speed multiplier in tenths: Ctrl wins over Shift; Shift
/// sprints only while Space is not held.
pub open spec fn move_tenths(keys: Set<Key>) -> int {
    if keys.contains(Key::ControlLeft) {
        1
    } else if keys.contains(Key::ShiftLeft) && !keys.contains(Key::Space) {
        30
    } else {
        10
    }
}

/// A distance in millionths of a unit covered at `speed` (millionths per
/// second) for `dt` nanoseconds, times `tenths` tenths.
#[verifier::opaque]
pub open spec fn scaled(speed: int, dt: int, tenths: int) -> int {
    speed * dt * tenths / 10_000_000_000
}

/// Distance of one tick's planar movement.
pub open spec fn move_step(speed: int, dt: int, keys: Set<Key>) -> int {
    scaled(speed, dt, move_tenths(keys))
}

/// Distance of one tick's ascent: half the base step while Shift is held.
pub open spec fn climb_step(speed: int, dt: int, keys: Set<Key>) -> int {
    if keys.contains(Key::ShiftLeft) {
        scaled(speed, dt, 5)
    } else {
        move_step(speed, dt, keys)
    }
}

/// Net forward (+) or backward (-) key count.
pub open spec fn forward_count(keys: Set<Key>) -> int {
    held(keys, Key::KeyW) + held(keys, Key::ArrowUp) - held(keys, Key::KeyS) - held(
        keys,
        Key::ArrowDown,
    )
}

/// Net right (+) or left (-) key count.
pub open spec fn right_count(keys: Set<Key>) -> int {
    held(keys, Key::KeyD) + held(keys, Key::ArrowRight) - held(keys, Key::KeyA) - held(
        keys,
        Key::ArrowLeft,
    )
}

/// Division rounding toward zero.
#[verifier::opaque]
pub open spec fn trunc_div(n: int, d: int) -> int {
    if n >= 0 { n / d } else { -((-n) / d) }
}

/// One component of planar movement: `step` along forward and right,
/// scaled back from millionths.
#[verifier::opaque]
pub open spec fn planar(fc: int, rc: int, fa: int, ra: int, step: int) -> int {
    trunc_div((fc * fa + rc * ra) * step, UNIT as int)
}

/// Vertical movement along the world up axis.
pub open spec fn vertical(keys: Set<Key>, speed: int, dt: int) -> int {
    (if keys.contains(Key::Space) { climb_step(speed, dt, keys) } else { 0 }) - (if keys.contains(
        Key::KeyC,
    ) {
        move_step(speed, dt, keys)
    } else {
        0
    })
}

/// Camera orientation vectors at the start of a tick, in millionths.
#[derive(Clone, Copy, Debug, PartialEq, Eq, Structural)]
pub struct Basis {
    /// Unit view direction.
    pub forward: Vec3,
    /// Unit vector to the right of the view direction, in the horizontal plane.
    pub right: Vec3,
}

pub open spec fn unit_bounded(v: Vec3) -> bool {
    &&& -UNIT <= v.x <= UNIT
    &&& -UNIT <= v.y <= UNIT
    &&& -UNIT <= v.z <= UNIT
}

impl Basis {
    /// Components of both vectors within one unit.
    pub open spec fn wf(&self) -> bool {
        unit_bounded(self.forward) && unit_bounded(self.right)
    }
}

/// Position after one tick of held movement keys.
pub open spec fn moved_position(p: Vec3, keys: Set<Key>, speed: int, dt: int, b: Basis) -> Vec3 {
    let fc = forward_count(keys);
    let rc = right_count(keys);
    let m = move_step(speed, dt, keys);
    offset(
        p,
        planar(fc, rc, b.forward.x as int, b.right.x as int, m),
        planar(fc, rc, b.forward.y as int, b.right.y as int, m) + vertical(keys, speed, dt),
        planar(fc, rc, b.forward.z as int, b.right.z as int, m),
    )
}

/// Fractal power after one tick: Q lowers and E raises it by 2 per second.
pub open spec fn nudged_power(p: int, keys: Set<Key>, dt: int) -> int {
    let lowered = if keys.contains(Key::KeyQ) {
        if p - 2 * dt < MIN_POWER { MIN_POWER as int } else { p - 2 * dt }
    } else {
        p
    };
    if keys.contains(Key::KeyE) {
        if lowered + 2 * dt > MAX_POWER { MAX_POWER as int } else { lowered + 2 * dt }
    } else {
        lowered
    }
}

/// Whole iterations gained or lost in one tick: 20 per second, rounded down.
pub open spec fn iteration_step(dt: int) -> int {
    dt * 20 / (SECOND as int)
}

/// Iteration count after one tick: Z lowers and X raises it.
pub open spec fn nudged_iterations(n: int, keys: Set<Key>, dt: int) -> int {
    let s = iteration_step(dt);
    let lowered = if keys.contains(Key::KeyZ) {
        if n - s < MIN_ITERATIONS { MIN_ITERATIONS as int } else { n - s }
    } else {
        n
    };
    if keys.contains(Key::KeyX) {
        if lowered + s > MAX_ITERATIONS { MAX_ITERATIONS as int } else { lowered + s }
    } else {
        lowered
    }
}

/// Fractal type chosen by the held digit keys: 1 to 6 pick types 0 to 5,
/// 0 picks auto-cycle; of several, 0 wins, then the highest digit.
pub open spec fn selected_type(t: u32, keys: Set<Key>) -> u32 {
    if keys.contains(Key::Digit0) {
        AUTO_CYCLE
    } else if keys.contains(Key::Digit6) {
        5
    } else if keys.contains(Key::Digit5) {
        4
    } else if keys.contains(Key::Digit4) {
        3
    } else if keys.contains(Key::Digit3) {
        2
    } else if keys.contains(Key::Digit2) {
        1
    } else if keys.contains(Key::Digit1) {
        0
    } else {
        t
    }
}

/// Look sensitivity, in millionths of a degree per pixel: 0.3 times the
/// base while the secondary button is held.
pub open spec fn look_sensitivity(fine: bool) -> int {
    if fine { SENSITIVITY * 3 / 10 } else { SENSITIVITY as int }
}

/// Held keys after an event.
pub open spec fn pressed_after(keys: Set<Key>, e: InputEvent) -> Set<Key> {
    match e {
        InputEvent::Key { key: Some(k), pressed } => if pressed {
            keys.insert(k)
        } else {
            keys.remove(k)
        },
        _ => keys,
    }
}

/// State of button `b`, previously `down`, after an event.
pub open spec fn button_after(down: bool, b: MouseButton, e: InputEvent) -> bool {
    match e {
        InputEvent::Button { button, pressed } => if button == b {
            pressed
        } else {
            down
        },
        _ => down,
    }
}

/// Pointer capture after an event, before the grab request is answered.
pub open spec fn captured_after(h: InputHandler, e: InputEvent) -> bool {
    match e {
        InputEvent::Key { key: Some(Key::Tab), pressed: true } => !h.mouse_captured,
        InputEvent::Button { button: MouseButton::Left, pressed: true } => true,
        _ => h.mouse_captured,
    }
}

/// What handling an event asks of the caller.
pub open spec fn event_response(h: InputHandler, e: InputEvent) -> EventResponse {
    match e {
        InputEvent::Key { key: Some(k), pressed: true } => EventResponse {
            handled: true,
            grab: if k == Key::Tab {
                Some(if h.mouse_captured { CursorGrab::Released } else { CursorGrab::Confined })
            } else {
                None
            },
            print_status: k == Key::KeyF,
        },
        InputEvent::Button { button: MouseButton::Left, pressed: true } => EventResponse {
            handled: true,
            grab: if h.mouse_captured { None } else { Some(CursorGrab::Confined) },
            print_status: false,
        },
        InputEvent::Key { .. } | InputEvent::Button { .. } | InputEvent::Wheel(_)
        | InputEvent::CursorMoved { .. } => EventResponse {
            handled: true,
            grab: None,
            print_status: false,
        },
        _ => EventResponse { handled: false, grab: None, print_status: false },
    }
}

/// Camera after a scroll event.
pub open spec fn after_scroll(cam: Camera, d: ScrollDelta) -> Camera {
    Camera {
        speed: clamp(
            cam.speed + scroll_amount(d) / 2,
            crate::camera::MIN_SPEED as int,
            crate::camera::MAX_SPEED as int,
        ) as u64,
        ..cam
    }
}

/// Camera after the pointer moved to `pos`: turned by the movement only
/// while captured, with pitch clamped.
pub open spec fn after_look(h: InputHandler, cam: Camera, pos: (i32, i32)) -> Camera {
    if h.mouse_captured {
        let s = look_sensitivity(h.right_mouse_pressed);
        let dx = pos.0 - h.last_mouse_pos.0;
        let dy = pos.1 - h.last_mouse_pos.1;
        Camera {
            yaw: saturate(cam.yaw + dx * s) as i64,
            pitch: clamp(cam.pitch - dy * s, -PITCH_LIMIT as int, PITCH_LIMIT as int) as i64,
            ..cam
        }
    } else {
        cam
    }
}

/// `h2` is `h1` after handling event `e`, before any grab answer.
pub open spec fn handled(h1: InputHandler, h2: InputHandler, e: InputEvent) -> bool {
    &&& h2.keys_pressed@ == pressed_after(h1.keys_pressed@, e)
    &&& h2.mouse_captured == captured_after(h1, e)
    &&& h2.left_mouse_pressed == button_after(h1.left_mouse_pressed, MouseButton::Left, e)
    &&& h2.right_mouse_pressed == button_after(h1.right_mouse_pressed, MouseButton::Right, e)
    &&& h2.middle_mouse_pressed == button_after(h1.middle_mouse_pressed, MouseButton::Middle, e)
    &&& h2.last_mouse_pos == (match e {
        InputEvent::CursorMoved { x, y } => (x, y),
        _ => h1.last_mouse_pos,
    })
}

/// `h2` is `h1` with only the pointer position changed to `pos`.
pub open spec fn moved_pointer(h1: InputHandler, h2: InputHandler, pos: (i32, i32)) -> bool {
    &&& h2.last_mouse_pos == pos
    &&& h2.keys_pressed@ == h1.keys_pressed@
    &&& h2.mouse_captured == h1.mouse_captured
    &&& h2.left_mouse_pressed == h1.left_mouse_pressed
    &&& h2.right_mouse_pressed == h1.right_mouse_pressed
    &&& h2.middle_mouse_pressed == h1.middle_mouse_pressed
}

/// Held keys and buttons, pointer capture and the last pointer position.
pub struct InputHandler {
    pub keys_pressed: KeySet,
    pub left_mouse_pressed: bool,
    pub right_mouse_pressed: bool,
    pub middle_mouse_pressed: bool,
    /// In whole pixels.
    pub last_mouse_pos: (i32, i32),
    pub mouse_captured: bool,
}

/// One component of planar movement; see `planar`.
fn planar_component(fc: i64, rc: i64, fa: i64, ra: i64, step: u128) -> (r: i128)
    requires
        -2 <= fc <= 2,
        -2 <= rc <= 2,
        -UNIT <= fa <= UNIT,
        -UNIT <= ra <= UNIT,
        step <= 0x1_0000_0000_0000_0000,
    ensures
        r == planar(fc as int, rc as int, fa as int, ra as int, step as int),
        -0x10_0000_0000_0000_0000 <= r <= 0x10_0000_0000_0000_0000,
{
    reveal(trunc_div);
    reveal(planar);
    proof {
        assert(-2_000_000 <= fc * fa <= 2_000_000) by (nonlinear_arith)
            requires -2 <= fc <= 2, -1_000_000 <= fa <= 1_000_000;
        assert(-2_000_000 <= rc * ra <= 2_000_000) by (nonlinear_arith)
            requires -2 <= rc <= 2, -1_000_000 <= ra <= 1_000_000;
    }
    let c: i128 = fc as i128 * fa as i128 + rc as i128 * ra as i128;
    assert(-4_000_000 * 0x1_0000_0000_0000_0000 <= c * step <= 4_000_000 * 0x1_0000_0000_0000_0000)
        by (nonlinear_arith)
        requires
            -4_000_000 <= c <= 4_000_000,
            0 <= step <= 0x1_0000_0000_0000_0000,
    ;
    let n: i128 = c * step as i128;
    if n >= 0 {
        n / (UNIT as i128)
    } else {
        -((-n) / (UNIT as i128))
    }
}

/// `speed * dt * tenths / 10^10`: a distance in millionths of a unit for a
/// speed in millionths per second, `dt` in nanoseconds and a multiplier in
/// tenths.
fn scaled_step(speed: u64, dt: u64, tenths: u128) -> (r: u128)
    requires
        speed <= 20_000_000,
        tenths <= 30,
    ensures
        r == scaled(speed as int, dt as int, tenths as int),
        r <= 0x1_0000_0000_0000_0000,
{
    reveal(scaled);
    assert(speed * dt * tenths <= 600_000_000 * 0x1_0000_0000_0000_0000) by (nonlinear_arith)
        requires
            speed <= 20_000_000,
            dt < 0x1_0000_0000_0000_0000,
            tenths <= 30,
            speed >= 0,
            dt >= 0,
            tenths >= 0,
    ;
    assert(speed * dt <= 20_000_000 * 0x1_0000_0000_0000_0000) by (nonlinear_arith)
        requires
            speed <= 20_000_000,
            dt < 0x1_0000_0000_0000_0000,
            speed >= 0,
            dt >= 0,
    ;
    let base: u128 = speed as u128 * dt as u128;
    let n: u128 = base * tenths;
    let r = n / 10_000_000_000;
    assert(r <= 0x1_0000_0000_0000_0000) by (nonlinear_arith)
        requires
            r == n / 10_000_000_000,
            n <= 600_000_000 * 0x1_0000_0000_0000_0000,
    ;
    r
}

/// One tick's movement by the held keys, before saturation; see
/// `moved_position`.
#[verifier::rlimit(40)]
fn displacement(keys: &KeySet, speed: u64, dt: u64, basis: Basis) -> (r: (i128, i128, i128))
    requires
        keys.wf(),
        speed <= 20_000_000,
        basis.wf(),
    ensures
        ({
            let ks = keys@;
            let fc = forward_count(ks);
            let rc = right_count(ks);
            let m = move_step(speed as int, dt as int, ks);
            &&& r.0 == planar(fc, rc, basis.forward.x as int, basis.right.x as int, m)
            &&& r.1 == planar(fc, rc, basis.forward.y as int, basis.right.y as int, m) + vertical(
                ks,
                speed as int,
                dt as int,
            )
            &&& r.2 == planar(fc, rc, basis.forward.z as int, basis.right.z as int, m)
        }),
        -0x100_0000_0000_0000_0000 <= r.0 <= 0x100_0000_0000_0000_0000,
        -0x100_0000_0000_0000_0000 <= r.1 <= 0x100_0000_0000_0000_0000,
        -0x100_0000_0000_0000_0000 <= r.2 <= 0x100_0000_0000_0000_0000,
{
    let ghost ks = keys@;
    let ctrl = keys.contains(Key::ControlLeft);
    let shift = keys.contains(Key::ShiftLeft);
    let space = keys.contains(Key::Space);
    let tenths: u128 = if ctrl {
        1
    } else if shift && !space {
        30
    } else {
        10
    };
    let step = scaled_step(speed, dt, tenths);
    let climb: u128 = if shift { scaled_step(speed, dt, 5) } else { step };
    let fc: i64 = (keys.contains(Key::KeyW) as i64) + (keys.contains(Key::ArrowUp) as i64)
        - (keys.contains(Key::KeyS) as i64) - (keys.contains(Key::ArrowDown) as i64);
    let rc: i64 = (keys.contains(Key::KeyD) as i64) + (keys.contains(Key::ArrowRight) as i64)
        - (keys.contains(Key::KeyA) as i64) - (keys.contains(Key::ArrowLeft) as i64);
    assert(tenths == move_tenths(ks));
    assert(step == move_step(speed as int, dt as int, ks));
    assert(climb == climb_step(speed as int, dt as int, ks));
    assert(fc == forward_count(ks));
    assert(rc == right_count(ks));
    let up: i128 = if space { climb as i128 } else { 0 };
    let down: i128 = if keys.contains(Key::KeyC) { step as i128 } else { 0 };
    let f = basis.forward;
    let r = basis.right;
    let dx = planar_component(fc, rc, f.x, r.x, step);
    let dy = planar_component(fc, rc, f.y, r.y, step) + up - down;
    let dz = planar_component(fc, rc, f.z, r.z, step);
    assert(up - down == vertical(ks, speed as int, dt as int));
    (dx, dy, dz)
}

/// Whole iterations for `dt` nanoseconds at 20 per second.
fn iterations_per(dt: u64) -> (r: u64)
    ensures
        r == iteration_step(dt as int),
{
    let r: u64 = dt / SECOND * 20 + (dt % SECOND) * 20 / SECOND;
    assert(r == iteration_step(dt as int)) by (nonlinear_arith)
        requires
            r == dt / 1_000_000_000 * 20 + (dt % 1_000_000_000) * 20 / 1_000_000_000,
            dt >= 0,
    {
        vstd::arithmetic::div_mod::lemma_fundamental_div_mod(dt as int, 1_000_000_000);
    }
    r
}

/// See `nudged_power`.
fn nudge_power(keys: &KeySet, power: u64, dt: u64) -> (r: u64)
    requires
        keys.wf(),
        MIN_POWER <= power <= MAX_POWER,
    ensures
        r == nudged_power(power as int, keys@, dt as int),
        MIN_POWER <= r <= MAX_POWER,
{
    let change: u128 = 2 * dt as u128;
    let mut p: u128 = power as u128;
    if keys.contains(Key::KeyQ) {
        p = if p < MIN_POWER as u128 + change { MIN_POWER as u128 } else { p - change };
    }
    if keys.contains(Key::KeyE) {
        p = if p + change > MAX_POWER as u128 { MAX_POWER as u128 } else { p + change };
    }
    p as u64
}

/// See `nudged_iterations`.
fn nudge_iterations(keys: &KeySet, n: u32, dt: u64) -> (r: u32)
    requires
        keys.wf(),
        MIN_ITERATIONS <= n <= MAX_ITERATIONS,
    ensures
        r == nudged_iterations(n as int, keys@, dt as int),
        MIN_ITERATIONS <= r <= MAX_ITERATIONS,
{
    let step = iterations_per(dt);
    let mut v: u64 = n as u64;
    if keys.contains(Key::KeyZ) {
        v = if v < MIN_ITERATIONS as u64 + step { MIN_ITERATIONS as u64 } else { v - step };
    }
    if keys.contains(Key::KeyX) {
        v = if step > MAX_ITERATIONS as u64 - v { MAX_ITERATIONS as u64 } else { v + step };
    }
    v as u32
}

impl InputHandler {
    pub open spec fn wf(&self) -> bool {
        self.keys_pressed.wf()
    }

    /// Nothing held, pointer free, at the origin.
    pub fn new() -> (r: InputHandler)
        ensures
            r.wf(),
            r.keys_pressed@ == Set::<Key>::empty(),
            !r.left_mouse_pressed,
            !r.right_mouse_pressed,
            !r.middle_mouse_pressed,
            r.last_mouse_pos == (0i32, 0i32),
            !r.mouse_captured,
    {
        InputHandler {
            keys_pressed: KeySet::new(),
            left_mouse_pressed: false,
            right_mouse_pressed: false,
            middle_mouse_pressed: false,
            last_mouse_pos: (0, 0),
            mouse_captured: false,
        }
    }

    /// Moves the camera for one tick of `dt` nanoseconds by the held keys,
    /// along the orientation `basis` taken before the tick; resets it while
    /// R is held.
    pub fn update_camera(&self, camera: &mut Camera, dt: u64, basis: Basis)
        requires
            self.wf(),
            old(camera).wf(),
            basis.wf(),
        ensures
            final(camera).wf(),
            final(camera).width == old(camera).width,
            final(camera).height == old(camera).height,
            self.keys_pressed@.contains(Key::KeyR) ==> final(camera).is_default_pose(),
            !self.keys_pressed@.contains(Key::KeyR) ==> {
                &&& final(camera).position == moved_position(
                    old(camera).position,
                    self.keys_pressed@,
                    old(camera).speed as int,
                    dt as int,
                    basis,
                )
                &&& final(camera).yaw == old(camera).yaw
                &&& final(camera).pitch == old(camera).pitch
                &&& final(camera).speed == old(camera).speed
            },
    {
        let (dx, dy, dz) = displacement(&self.keys_pressed, camera.speed, dt, basis);
        let p = camera.position;
        camera.position = Vec3 {
            x: saturating_add(p.x, dx),
            y: saturating_add(p.y, dy),
            z: saturating_add(p.z, dz),
        };
        if self.keys_pressed.contains(Key::KeyR) {
            camera.reset();
        }
    }

    /// Nudges power and iteration count by the held keys over `dt`
    /// nanoseconds, and selects the fractal type by the held digit keys.
    pub fn update_uniforms(&self, uniforms: &mut Uniforms, dt: u64)
        requires
            self.wf(),
            old(uniforms).wf(),
        ensures
            final(uniforms).wf(),
            MIN_POWER <= final(uniforms).fractal_power <= MAX_POWER,
            MIN_ITERATIONS <= final(uniforms).fractal_iterations <= MAX_ITERATIONS,
            final(uniforms).fractal_power == nudged_power(
                old(uniforms).fractal_power as int,
                self.keys_pressed@,
                dt as int,
            ),
            final(uniforms).fractal_iterations == nudged_iterations(
                old(uniforms).fractal_iterations as int,
                self.keys_pressed@,
                dt as int,
            ),
            final(uniforms).fractal_type == selected_type(
                old(uniforms).fractal_type,
                self.keys_pressed@,
            ),
            final(uniforms).time == old(uniforms).time,
            final(uniforms).camera_pos == old(uniforms).camera_pos,
    {
        let keys = &self.keys_pressed;
        uniforms.fractal_power = nudge_power(keys, uniforms.fractal_power, dt);
        uniforms.fractal_iterations = nudge_iterations(keys, uniforms.fractal_iterations, dt);
        if keys.contains(Key::Digit1) {
            uniforms.fractal_type = 0;
        }
        if keys.contains(Key::Digit2) {
            uniforms.fractal_type = 1;
        }
        if keys.contains(Key::Digit3) {
            uniforms.fractal_type = 2;
        }
        if keys.contains(Key::Digit4) {
            uniforms.fractal_type = 3;
        }
        if keys.contains(Key::Digit5) {
            uniforms.fractal_type = 4;
        }
        if keys.contains(Key::Digit6) {
            uniforms.fractal_type = 5;
        }
        if keys.contains(Key::Digit0) {
            uniforms.fractal_type = AUTO_CYCLE;
        }
    }

    /// Pointer movement since the last position while captured, else zero.
    pub fn get_mouse_delta(&self, position: (i32, i32)) -> (r: (i64, i64))
        ensures
            self.mouse_captured ==> r.0 == position.0 - self.last_mouse_pos.0 && r.1
                == position.1 - self.last_mouse_pos.1,
            !self.mouse_captured ==> r == (0i64, 0i64),
    {
        if self.mouse_captured {
            (
                position.0 as i64 - self.last_mouse_pos.0 as i64,
                position.1 as i64 - self.last_mouse_pos.1 as i64,
            )
        } else {
            (0, 0)
        }
    }

    /// While captured, turns the camera by the pointer movement (finer while
    /// the secondary button is held) with pitch clamped; always records the
    /// new pointer position.
    pub fn update_mouse_look(&mut self, camera: &mut Camera, position: (i32, i32))
        requires
            old(self).wf(),
            old(camera).wf(),
        ensures
            final(self).wf(),
            final(camera).wf(),
            -PITCH_LIMIT <= final(camera).pitch <= PITCH_LIMIT,
            moved_pointer(*old(self), *final(self), position),
            *final(camera) == after_look(*old(self), *old(camera), position),
    {
        if self.mouse_captured {
            let (dx, dy) = self.get_mouse_delta(position);
            let s: i64 = if self.right_mouse_pressed { SENSITIVITY * 3 / 10 } else { SENSITIVITY };
            assert(-0x2_0000_0000 * 2000 <= dx * s <= 0x2_0000_0000 * 2000) by (nonlinear_arith)
                requires -0x2_0000_0000 <= dx <= 0x2_0000_0000, 0 <= s <= 2000;
            assert(-0x2_0000_0000 * 2000 <= dy * s <= 0x2_0000_0000 * 2000) by (nonlinear_arith)
                requires -0x2_0000_0000 <= dy <= 0x2_0000_0000, 0 <= s <= 2000;
            camera.yaw = saturating_add(camera.yaw, (dx * s) as i128);
            let p: i64 = camera.pitch - dy * s;
            camera.pitch = if p < -PITCH_LIMIT {
                -PITCH_LIMIT
            } else if p > PITCH_LIMIT {
                PITCH_LIMIT
            } else {
                p
            };
        }
        self.last_mouse_pos = position;
    }

    /// Scroll changes the movement speed, clamped to its range.
    pub fn handle_mouse_scroll(&self, camera: &mut Camera, delta: ScrollDelta)
        requires
            old(camera).wf(),
        ensures
            final(camera).wf(),
            crate::camera::MIN_SPEED <= final(camera).speed <= crate::camera::MAX_SPEED,
            *final(camera) == after_scroll(*old(camera), delta),
    {
        let amount = normalize_scroll(delta);
        camera.apply_zoom_delta(amount);
    }

    /// Records a key or button change. Tab flips pointer capture and asks
    /// for the matching grab; a primary-button press while free asks to
    /// capture; F asks for a status report. Pointer moves record the
    /// position. Events that are not input are left unhandled.
    pub fn handle_event(&mut self, event: &InputEvent) -> (r: EventResponse)
        requires
            old(self).wf(),
        ensures
            final(self).wf(),
            r == event_response(*old(self), *event),
            handled(*old(self), *final(self), *event),
    {
        let none = EventResponse { handled: true, grab: None, print_status: false };
        match *event {
            InputEvent::Key { key: Some(k), pressed: true } => {
                self.keys_pressed.insert(k);
                let mut r = none;
                if k == Key::Tab {
                    self.mouse_captured = !self.mouse_captured;
                    r.grab = Some(
                        if self.mouse_captured {
                            CursorGrab::Confined
                        } else {
                            CursorGrab::Released
                        },
                    );
                }
                if k == Key::KeyF {
                    r.print_status = true;
                }
                r
            },
            InputEvent::Key { key: Some(k), pressed: false } => {
                self.keys_pressed.remove(k);
                none
            },
            InputEvent::Key { key: None, .. } => none,
            InputEvent::Button { button, pressed } => {
                match button {
                    MouseButton::Left => {
                        self.left_mouse_pressed = pressed;
                        if pressed && !self.mouse_captured {
                            self.mouse_captured = true;
                            EventResponse {
                                handled: true,
                                grab: Some(CursorGrab::Confined),
                                print_status: false,
                            }
                        } else {
                            none
                        }
                    },
                    MouseButton::Right => {
                        self.right_mouse_pressed = pressed;
                        none
                    },
                    MouseButton::Middle => {
                        self.middle_mouse_pressed = pressed;
                        none
                    },
                    MouseButton::Other => none,
                }
            },
            InputEvent::Wheel(_) => none,
            InputEvent::CursorMoved { x, y } => {
                self.last_mouse_pos = (x, y);
                none
            },
            _ => EventResponse { handled: false, grab: None, print_status: false },
        }
    }

    /// Takes the window system's answer to a grab request: a refused grab
    /// leaves the pointer free. Returns whether the cursor is to be shown.
    pub fn grab_finished(&mut self, granted: bool) -> (visible: bool)
        requires
            old(self).wf(),
        ensures
            final(self).wf(),
            final(self).mouse_captured == (old(self).mouse_captured && granted),
            visible == !final(self).mouse_captured,
            final(self).keys_pressed@ == old(self).keys_pressed@,
            final(self).last_mouse_pos == old(self).last_mouse_pos,
            final(self).left_mouse_pressed == old(self).left_mouse_pressed,
            final(self).right_mouse_pressed == old(self).right_mouse_pressed,
            final(self).middle_mouse_pressed == old(self).middle_mouse_pressed,
    {
        if !granted {
            self.mouse_captured = false;
        }
        !self.mouse_captured
    }
}

} // verus!
