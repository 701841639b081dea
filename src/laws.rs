use vstd::prelude::*;
use crate::camera::{Camera, Vec3, MAX_SPEED, MIN_SPEED, PITCH_LIMIT};
use crate::input::{
    after_look, after_scroll, move_step, moved_position, nudged_iterations, nudged_power, planar,
    Basis, InputHandler, ScrollDelta,
};
use crate::keys::Key;
use crate::uniforms::{MAX_ITERATIONS, MAX_POWER, MIN_ITERATIONS, MIN_POWER};

verus! {

/// Camera after a sequence of scroll events.
pub open spec fn scroll_all(cam: Camera, ds: Seq<ScrollDelta>) -> Camera
    decreases ds.len(),
{
    if ds.len() == 0 {
        cam
    } else {
        scroll_all(after_scroll(cam, ds[0]), ds.drop_first())
    }
}

/// Camera after the pointer visited `ps` in turn; capture and buttons stay
/// as in `h`, and each position becomes the last one seen.
pub open spec fn look_all(h: InputHandler, cam: Camera, ps: Seq<(i32, i32)>) -> Camera
    decreases ps.len(),
{
    if ps.len() == 0 {
        cam
    } else {
        look_all(
            InputHandler { last_mouse_pos: ps[0], ..h },
            after_look(h, cam, ps[0]),
            ps.drop_first(),
        )
    }
}

/// Fractal power after ticks of (held keys, nanoseconds).
pub open spec fn power_after(p: int, ticks: Seq<(Set<Key>, nat)>) -> int
    decreases ticks.len(),
{
    if ticks.len() == 0 {
        p
    } else {
        power_after(nudged_power(p, ticks[0].0, ticks[0].1 as int), ticks.drop_first())
    }
}

/// Iteration count after ticks of (held keys, nanoseconds).
pub open spec fn iterations_after(n: int, ticks: Seq<(Set<Key>, nat)>) -> int
    decreases ticks.len(),
{
    if ticks.len() == 0 {
        n
    } else {
        iterations_after(
            nudged_iterations(n, ticks[0].0, ticks[0].1 as int),
            ticks.drop_first(),
        )
    }
}

/// Position after `n` ticks of `dt` nanoseconds with the same keys held,
/// speed and orientation.
pub open spec fn hold_keys(p: Vec3, keys: Set<Key>, speed: int, dt: int, b: Basis, n: nat) -> Vec3
    decreases n,
{
    if n == 0 {
        p
    } else {
        moved_position(hold_keys(p, keys, speed, dt, b, (n - 1) as nat), keys, speed, dt, b)
    }
}

/// Per-tick displacement along one axis while only the forward key is held.
pub open spec fn forward_tick(fa: int, ra: int, speed: int, dt: int) -> int {
    planar(1, 0, fa, ra, move_step(speed, dt, set![Key::KeyW]))
}

/// `v` lies in the range of `i64`.
pub open spec fn fits(v: int) -> bool {
    i64::MIN <= v <= i64::MAX
}

proof fn step_fits(c: int, d: int, m: nat)
    requires
        fits(c),
        fits(c + (m + 1) * d),
    ensures
        fits(c + m * d),
        c + m * d + d == c + (m + 1) * d,
{
    assert(c + m * d + d == c + (m + 1) * d) by (nonlinear_arith);
    assert(fits(c + m * d)) by (nonlinear_arith)
        requires
            fits(c),
            fits(c + (m + 1) * d),
            m >= 0,
    ;
}

/// Holding only the forward key for `n` ticks moves the camera by `n` equal
/// steps along its forward direction, as long as the end point fits.
pub proof fn forward_hold_is_linear(p: Vec3, speed: int, dt: int, b: Basis, n: nat)
    requires
        fits(p.x + n * forward_tick(b.forward.x as int, b.right.x as int, speed, dt)),
        fits(p.y + n * forward_tick(b.forward.y as int, b.right.y as int, speed, dt)),
        fits(p.z + n * forward_tick(b.forward.z as int, b.right.z as int, speed, dt)),
    ensures
        hold_keys(p, set![Key::KeyW], speed, dt, b, n) == (Vec3 {
            x: (p.x + n * forward_tick(b.forward.x as int, b.right.x as int, speed, dt)) as i64,
            y: (p.y + n * forward_tick(b.forward.y as int, b.right.y as int, speed, dt)) as i64,
            z: (p.z + n * forward_tick(b.forward.z as int, b.right.z as int, speed, dt)) as i64,
        }),
    decreases n,
{
    let keys = set![Key::KeyW];
    let dx = forward_tick(b.forward.x as int, b.right.x as int, speed, dt);
    let dy = forward_tick(b.forward.y as int, b.right.y as int, speed, dt);
    let dz = forward_tick(b.forward.z as int, b.right.z as int, speed, dt);
    if n > 0 {
        let m = (n - 1) as nat;
        step_fits(p.x as int, dx, m);
        step_fits(p.y as int, dy, m);
        step_fits(p.z as int, dz, m);
        assert(fits(p.x as int) && fits(p.y as int) && fits(p.z as int));
        forward_hold_is_linear(p, speed, dt, b, m);
        assert(keys.contains(Key::KeyW));
        assert(!keys.contains(Key::Space) && !keys.contains(Key::KeyC) && !keys.contains(Key::KeyS)
            && !keys.contains(Key::ArrowUp) && !keys.contains(Key::ArrowDown) && !keys.contains(
            Key::KeyA,
        ) && !keys.contains(Key::KeyD) && !keys.contains(Key::ArrowLeft) && !keys.contains(
            Key::ArrowRight,
        ));
        assert(crate::input::forward_count(keys) == 1);
        assert(crate::input::right_count(keys) == 0);
        assert(crate::input::vertical(keys, speed, dt) == 0);
    } else {
        assert(n * dx == 0 && n * dy == 0 && n * dz == 0) by (nonlinear_arith)
            requires
                n == 0,
        ;
    }
}

/// Along an axis that the view looks straight down, one tick with only the
/// forward key held covers `speed * dt / 10^9` millionths (speed in
/// millionths per second, `dt` in nanoseconds), and nothing along an axis
/// the view is square to.
pub proof fn forward_tick_on_axes(speed: int, dt: int, ra: int)
    requires
        speed >= 0,
        dt >= 0,
    ensures
        forward_tick(crate::camera::UNIT as int, 0, speed, dt) == speed * dt / 1_000_000_000,
        forward_tick(0, ra, speed, dt) == 0,
{
    reveal(crate::input::planar);
    reveal(crate::input::trunc_div);
    reveal(crate::input::scaled);
    let keys = set![Key::KeyW];
    assert(crate::input::move_tenths(keys) == 10) by {
        assert(!keys.contains(Key::ControlLeft) && !keys.contains(Key::ShiftLeft));
    }
    let x = speed * dt;
    assert(x >= 0) by (nonlinear_arith)
        requires
            speed >= 0,
            dt >= 0,
            x == speed * dt,
    ;
    let m = move_step(speed, dt, keys);
    assert(m == x * 10 / 10_000_000_000);
    assert(x * 10 / 10_000_000_000 == x / 1_000_000_000) by (nonlinear_arith)
        requires
            x >= 0,
    ;
    assert(m >= 0);
    assert((1 * 1_000_000 + 0 * 0) * m / 1_000_000 == m) by (nonlinear_arith)
        requires
            m >= 0,
    ;
    assert((1 * 0 + 0 * ra) * m == 0) by (nonlinear_arith);
}

/// However far and often the pointer moves, pitch stays within 89 degrees
/// either way.
pub proof fn pitch_stays_bounded(h: InputHandler, cam: Camera, ps: Seq<(i32, i32)>)
    requires
        cam.wf(),
    ensures
        look_all(h, cam, ps).wf(),
        -PITCH_LIMIT <= look_all(h, cam, ps).pitch <= PITCH_LIMIT,
    decreases ps.len(),
{
    if ps.len() > 0 {
        let next = after_look(h, cam, ps[0]);
        pitch_stays_bounded(InputHandler { last_mouse_pos: ps[0], ..h }, next, ps.drop_first());
    }
}

/// After any sequence of scroll events, the speed lies in [0.1, 20] units
/// per second.
pub proof fn speed_stays_bounded(cam: Camera, ds: Seq<ScrollDelta>)
    requires
        cam.wf(),
    ensures
        scroll_all(cam, ds).wf(),
        MIN_SPEED <= scroll_all(cam, ds).speed <= MAX_SPEED,
    decreases ds.len(),
{
    if ds.len() > 0 {
        speed_stays_bounded(after_scroll(cam, ds[0]), ds.drop_first());
    }
}

/// After any sequence of power and iteration nudges, the power lies in
/// [1, 20] and the iteration count in [8, 256].
pub proof fn nudges_stay_bounded(p: int, n: int, ticks: Seq<(Set<Key>, nat)>)
    requires
        MIN_POWER <= p <= MAX_POWER,
        MIN_ITERATIONS <= n <= MAX_ITERATIONS,
    ensures
        MIN_POWER <= power_after(p, ticks) <= MAX_POWER,
        MIN_ITERATIONS <= iterations_after(n, ticks) <= MAX_ITERATIONS,
    decreases ticks.len(),
{
    if ticks.len() > 0 {
        let dt = ticks[0].1 as int;
        assert(crate::input::iteration_step(dt) >= 0) by (nonlinear_arith)
            requires
                dt >= 0,
                crate::input::iteration_step(dt) == dt * 20 / 1_000_000_000,
        ;
        nudges_stay_bounded(
            nudged_power(p, ticks[0].0, dt),
            nudged_iterations(n, ticks[0].0, dt),
            ticks.drop_first(),
        );
    }
}

} // verus!
