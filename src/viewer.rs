use vstd::prelude::*;
use crate::camera::Camera;
use crate::input::{
    after_look, after_scroll, event_response, handled, moved_pointer, moved_position, nudged_iterations, nudged_power, selected_type, Basis, EventResponse,
    InputEvent, InputHandler, SECOND,
};
use crate::keys::Key;
use crate::uniforms::Uniforms;

verus! {

/// What the renderer reported for one frame.
#[derive(Clone, Copy, Debug, PartialEq, Eq, Structural)]
pub enum RenderOutcome {
    Presented,
    SurfaceLost,
    SurfaceOutdated,
    OutOfMemory,
    Timeout,
    Other,
}

/// What the event loop does next.
#[derive(Clone, Copy, Debug, PartialEq, Eq, Structural)]
pub enum LoopAction {
    Continue,
    /// Reconfigure the surface at its last known size, then continue.
    Reconfigure,
    /// Stop the loop.
    Exit,
    /// Log the error and continue.
    Report,
}

pub open spec fn action_for(o: RenderOutcome) -> LoopAction {
    match o {
        RenderOutcome::Presented => LoopAction::Continue,
        RenderOutcome::SurfaceLost | RenderOutcome::SurfaceOutdated => LoopAction::Reconfigure,
        RenderOutcome::OutOfMemory => LoopAction::Exit,
        RenderOutcome::Timeout | RenderOutcome::Other => LoopAction::Report,
    }
}

/// Lost or outdated surfaces are reconfigured, exhausted memory ends the
/// loop, any other error is reported.
pub fn after_render(o: RenderOutcome) -> (r: LoopAction)
    ensures
        r == action_for(o),
{
    match o {
        RenderOutcome::Presented => LoopAction::Continue,
        RenderOutcome::SurfaceLost => LoopAction::Reconfigure,
        RenderOutcome::SurfaceOutdated => LoopAction::Reconfigure,
        RenderOutcome::OutOfMemory => LoopAction::Exit,
        RenderOutcome::Timeout => LoopAction::Report,
        RenderOutcome::Other => LoopAction::Report,
    }
}

/// Frames per second, in thousandths, over a window of `frames` frames
/// lasting `elapsed` nanoseconds.
pub open spec fn window_rate(frames: int, elapsed: int) -> int {
    frames * 1_000_000_000_000 / elapsed
}

/// `a + b`, capped at `cap`.
pub open spec fn capped_sum(a: int, b: int, cap: int) -> int {
    if a + b > cap { cap } else { a + b }
}

/// Camera, parameters, input state and frame-rate window of the viewer.
pub struct RayMarchingApp {
    pub uniforms: Uniforms,
    pub camera: Camera,
    pub input_handler: InputHandler,
    /// Frames in the current one-second window.
    pub frame_count: u32,
    /// Nanoseconds in the current window.
    pub fps_update_timer: u64,
    /// Rate over the last closed window, in thousandths of a frame per second.
    pub current_fps: u64,
}

impl RayMarchingApp {
    pub open spec fn wf(&self) -> bool {
        &&& self.uniforms.wf()
        &&& self.camera.wf()
        &&& self.input_handler.wf()
    }

    /// A viewer at the default pose for a `width` x `height` surface.
    pub fn new(width: u32, height: u32) -> (r: RayMarchingApp)
        requires
            width > 0,
            height > 0,
        ensures
            r.wf(),
            r.camera.is_default_pose(),
            r.camera.width == width,
            r.camera.height == height,
            r.uniforms.wf(),
            r.uniforms.time == 0,
            r.uniforms.fractal_power == crate::uniforms::DEFAULT_POWER,
            r.uniforms.fractal_iterations == crate::uniforms::DEFAULT_ITERATIONS,
            r.uniforms.fractal_type == 0,
            r.uniforms.camera_pos == r.camera.position,
            r.input_handler.keys_pressed@ == Set::<Key>::empty(),
            !r.input_handler.mouse_captured,
            !r.input_handler.left_mouse_pressed,
            !r.input_handler.right_mouse_pressed,
            !r.input_handler.middle_mouse_pressed,
            r.input_handler.last_mouse_pos == (0i32, 0i32),
            r.frame_count == 0,
            r.fps_update_timer == 0,
            r.current_fps == 0,
    {
        let camera = Camera::new(width, height);
        let mut uniforms = Uniforms::new();
        uniforms.camera_pos = camera.position;
        RayMarchingApp {
            uniforms,
            camera,
            input_handler: InputHandler::new(),
            frame_count: 0,
            fps_update_timer: 0,
            current_fps: 0,
        }
    }
}

impl RayMarchingApp {
    /// Takes a new surface size; a size with a zero side is ignored.
    /// Returns whether the renderer must be resized too.
    pub fn resize(&mut self, width: u32, height: u32) -> (r: bool)
        requires
            old(self).wf(),
        ensures
            final(self).wf(),
            r == (width > 0 && height > 0),
            r ==> final(self).camera == (Camera { width, height, ..old(self).camera }),
            !r ==> final(self).camera == old(self).camera,
            final(self).uniforms == old(self).uniforms,
            final(self).input_handler == old(self).input_handler,
            final(self).frame_count == old(self).frame_count,
            final(self).fps_update_timer == old(self).fps_update_timer,
            final(self).current_fps == old(self).current_fps,
    {
        if width > 0 && height > 0 {
            self.camera.width = width;
            self.camera.height = height;
            true
        } else {
            false
        }
    }

    /// Routes an input event: scroll to the movement speed, pointer moves to
    /// looking around, the rest to the input state.
    pub fn input(&mut self, event: &InputEvent) -> (r: EventResponse)
        requires
            old(self).wf(),
        ensures
            final(self).wf(),
            final(self).uniforms == old(self).uniforms,
            match *event {
                InputEvent::Wheel(d) => {
                    &&& r == (EventResponse { handled: true, grab: None, print_status: false })
                    &&& final(self).camera == after_scroll(old(self).camera, d)
                    &&& moved_pointer(
                        old(self).input_handler,
                        final(self).input_handler,
                        old(self).input_handler.last_mouse_pos,
                    )
                },
                InputEvent::CursorMoved { x, y } => {
                    &&& r == (EventResponse { handled: true, grab: None, print_status: false })
                    &&& final(self).camera == after_look(
                        old(self).input_handler,
                        old(self).camera,
                        (x, y),
                    )
                    &&& moved_pointer(old(self).input_handler, final(self).input_handler, (x, y))
                },
                _ => {
                    &&& r == event_response(old(self).input_handler, *event)
                    &&& handled(old(self).input_handler, final(self).input_handler, *event)
                    &&& final(self).camera == old(self).camera
                },
            },
            final(self).frame_count == old(self).frame_count,
            final(self).fps_update_timer == old(self).fps_update_timer,
            final(self).current_fps == old(self).current_fps,
    {
        match *event {
            InputEvent::Wheel(delta) => {
                self.input_handler.handle_mouse_scroll(&mut self.camera, delta);
                EventResponse { handled: true, grab: None, print_status: false }
            },
            InputEvent::CursorMoved { x, y } => {
                self.input_handler.update_mouse_look(&mut self.camera, (x, y));
                EventResponse { handled: true, grab: None, print_status: false }
            },
            _ => self.input_handler.handle_event(event),
        }
    }

    /// Passes on the window system's answer to a grab request; returns
    /// whether the cursor is to be shown.
    pub fn grab_finished(&mut self, granted: bool) -> (visible: bool)
        requires
            old(self).wf(),
        ensures
            final(self).wf(),
            final(self).input_handler.mouse_captured == (old(self).input_handler.mouse_captured
                && granted),
            visible == !final(self).input_handler.mouse_captured,
            moved_pointer(
                old(self).input_handler,
                InputHandler { mouse_captured: old(self).input_handler.mouse_captured, ..final(self).input_handler },
                old(self).input_handler.last_mouse_pos,
            ),
            final(self).camera == old(self).camera,
            final(self).uniforms == old(self).uniforms,
            final(self).frame_count == old(self).frame_count,
            final(self).fps_update_timer == old(self).fps_update_timer,
            final(self).current_fps == old(self).current_fps,
    {
        self.input_handler.grab_finished(granted)
    }

    /// Counts one frame of `dt` nanoseconds into the frame-rate window; once
    /// the window reaches a second, the rate is taken and the window restarts.
    pub fn count_frame(&mut self, dt: u64)
        ensures
            ({
                let frames = capped_sum(old(self).frame_count as int, 1, u32::MAX as int);
                let elapsed = capped_sum(old(self).fps_update_timer as int, dt as int, u64::MAX as int);
                if elapsed >= SECOND {
                    &&& final(self).current_fps == window_rate(frames, elapsed)
                    &&& final(self).frame_count == 0
                    &&& final(self).fps_update_timer == 0
                } else {
                    &&& final(self).current_fps == old(self).current_fps
                    &&& final(self).frame_count == frames
                    &&& final(self).fps_update_timer == elapsed
                }
            }),
            final(self).camera == old(self).camera,
            final(self).uniforms == old(self).uniforms,
            final(self).input_handler == old(self).input_handler,
    {
        let frames = self.frame_count.saturating_add(1);
        let elapsed = self.fps_update_timer.saturating_add(dt);
        if elapsed >= SECOND {
            let n: u128 = frames as u128 * 1_000_000_000_000;
            let rate: u128 = n / elapsed as u128;
            assert(rate <= frames * 1000) by (nonlinear_arith)
                requires
                    rate == n / (elapsed as u128),
                    n == frames * 1_000_000_000_000,
                    elapsed >= 1_000_000_000,
                    frames >= 0,
            ;
            self.current_fps = rate as u64;
            self.frame_count = 0;
            self.fps_update_timer = 0;
        } else {
            self.frame_count = frames;
            self.fps_update_timer = elapsed;
        }
    }

    /// One tick of `dt` nanoseconds: counts the frame, moves the camera by
    /// the held keys along `basis` (its orientation before the tick), nudges
    /// the scene parameters, mirrors the camera position and advances time.
    pub fn update(&mut self, dt: u64, basis: Basis)
        requires
            old(self).wf(),
            basis.wf(),
        ensures
            final(self).wf(),
            ({
                let keys = old(self).input_handler.keys_pressed@;
                let cam = old(self).camera;
                let u = old(self).uniforms;
                let c = final(self).camera;
                &&& keys.contains(Key::KeyR) ==> c.is_default_pose()
                &&& !keys.contains(Key::KeyR) ==> {
                    &&& c.position == moved_position(cam.position, keys, cam.speed as int, dt as int, basis)
                    &&& c.yaw == cam.yaw
                    &&& c.pitch == cam.pitch
                    &&& c.speed == cam.speed
                }
                &&& c.width == cam.width
                &&& c.height == cam.height
                &&& final(self).uniforms.fractal_power == nudged_power(u.fractal_power as int, keys, dt as int)
                &&& final(self).uniforms.fractal_iterations == nudged_iterations(
                    u.fractal_iterations as int,
                    keys,
                    dt as int,
                )
                &&& final(self).uniforms.fractal_type == selected_type(u.fractal_type, keys)
                &&& final(self).uniforms.camera_pos == c.position
                &&& final(self).uniforms.time == capped_sum(u.time as int, dt as int, u64::MAX as int)
            }),
            ({
                let frames = capped_sum(old(self).frame_count as int, 1, u32::MAX as int);
                let elapsed = capped_sum(old(self).fps_update_timer as int, dt as int, u64::MAX as int);
                if elapsed >= SECOND {
                    &&& final(self).current_fps == window_rate(frames, elapsed)
                    &&& final(self).frame_count == 0
                    &&& final(self).fps_update_timer == 0
                } else {
                    &&& final(self).current_fps == old(self).current_fps
                    &&& final(self).frame_count == frames
                    &&& final(self).fps_update_timer == elapsed
                }
            }),
            final(self).input_handler == old(self).input_handler,
    {
        self.count_frame(dt);
        self.input_handler.update_camera(&mut self.camera, dt, basis);
        self.input_handler.update_uniforms(&mut self.uniforms, dt);
        self.uniforms.camera_pos = self.camera.position;
        self.uniforms.time = self.uniforms.time.saturating_add(dt);
    }

    /// A close request, or Escape pressed, ends the session.
    pub fn should_exit(&self, event: &InputEvent) -> (r: bool)
        ensures
            r == (*event == InputEvent::CloseRequested || *event == (InputEvent::Key {
                key: Some(Key::Escape),
                pressed: true,
            })),
    {
        match *event {
            InputEvent::CloseRequested => true,
            InputEvent::Key { key: Some(Key::Escape), pressed: true } => true,
            _ => false,
        }
    }
}

} // verus!
