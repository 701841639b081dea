use fractal_viewer::camera::{Camera, Vec3, MAX_SPEED, MIN_SPEED, PITCH_LIMIT};
use fractal_viewer::input::{
    normalize_scroll, Basis, CursorGrab, InputEvent, InputHandler, MouseButton, ScrollDelta,
};
use fractal_viewer::keys::{Key, KeySet};
use fractal_viewer::uniforms::{Uniforms, AUTO_CYCLE};
use fractal_viewer::viewer::{after_render, LoopAction, RayMarchingApp, RenderOutcome};

const SIXTIETH: u64 = 16_666_667;

fn key(k: Key, pressed: bool) -> InputEvent {
    InputEvent::Key { key: Some(k), pressed }
}

/// Orientation vectors for a yaw and pitch in degrees, in millionths.
fn basis_for(yaw_deg: f64, pitch_deg: f64) -> Basis {
    let (y, p) = (yaw_deg.to_radians(), pitch_deg.to_radians());
    let f = (y.cos() * p.cos(), p.sin(), y.sin() * p.cos());
    // cross(forward, up) with up = (0, 1, 0), normalized
    let r = (-f.2, 0.0, f.0);
    let len = (r.0 * r.0 + r.2 * r.2).sqrt();
    let m = |v: f64| (v * 1_000_000.0).round() as i64;
    Basis {
        forward: Vec3 { x: m(f.0), y: m(f.1), z: m(f.2) },
        right: Vec3 { x: m(r.0 / len), y: 0, z: m(r.2 / len) },
    }
}

fn default_basis() -> Basis {
    Basis {
        forward: Vec3 { x: 0, y: 0, z: 1_000_000 },
        right: Vec3 { x: -1_000_000, y: 0, z: 0 },
    }
}

#[test]
fn key_set_tracks_presses() {
    let mut s = KeySet::new();
    assert!(!s.contains(Key::KeyW));
    s.insert(Key::KeyW);
    s.insert(Key::Space);
    assert!(s.contains(Key::KeyW));
    assert!(s.contains(Key::Space));
    assert!(!s.contains(Key::KeyS));
    s.remove(Key::KeyW);
    assert!(!s.contains(Key::KeyW));
    assert!(s.contains(Key::Space));
}

#[test]
fn pitch_stays_clamped() {
    let mut app = RayMarchingApp::new(800, 600);
    app.input(&InputEvent::Button { button: MouseButton::Left, pressed: true });
    app.grab_finished(true);
    app.input(&InputEvent::CursorMoved { x: 0, y: -1_000_000 });
    assert_eq!(app.camera.pitch, PITCH_LIMIT);
    app.input(&InputEvent::CursorMoved { x: 0, y: 1_000_000 });
    assert_eq!(app.camera.pitch, -PITCH_LIMIT);
    app.input(&InputEvent::CursorMoved { x: 0, y: 1_000_010 });
    assert_eq!(app.camera.pitch, -PITCH_LIMIT);
    app.input(&InputEvent::CursorMoved { x: 0, y: 1_000_000 });
    assert_eq!(app.camera.pitch, -PITCH_LIMIT + 20_000);
}

#[test]
fn look_moves_yaw_unbounded() {
    let mut h = InputHandler::new();
    let mut cam = Camera::new(4, 3);
    h.mouse_captured = true;
    h.update_mouse_look(&mut cam, (10, 0));
    assert_eq!(cam.yaw, 90_000_000 + 20_000);
    h.right_mouse_pressed = true;
    h.update_mouse_look(&mut cam, (20, 0));
    assert_eq!(cam.yaw, 90_000_000 + 26_000);
    h.right_mouse_pressed = false;
    // back to zero, then past it: yaw is not wrapped
    h.update_mouse_look(&mut cam, (20 - 45_013, 0));
    assert_eq!(cam.yaw, 0);
    h.update_mouse_look(&mut cam, (20 - 45_014, 0));
    assert_eq!(cam.yaw, -2_000);
    // more than a full turn to the right
    h.update_mouse_look(&mut cam, (20 - 45_014 + 200_000, 0));
    assert_eq!(cam.yaw, 400_000_000 - 2_000);
    // far beyond any real movement, yaw saturates instead of overflowing
    cam.yaw = i64::MAX - 1;
    h.update_mouse_look(&mut cam, (i32::MAX, 0));
    assert_eq!(cam.yaw, i64::MAX);
}

#[test]
fn look_ignored_while_free_but_position_kept() {
    let mut h = InputHandler::new();
    let mut cam = Camera::new(4, 3);
    h.update_mouse_look(&mut cam, (500, 400));
    assert_eq!(cam.yaw, 90_000_000);
    assert_eq!(cam.pitch, 0);
    assert_eq!(h.last_mouse_pos, (500, 400));
    assert_eq!(h.get_mouse_delta((510, 390)), (0, 0));
    h.mouse_captured = true;
    assert_eq!(h.get_mouse_delta((510, 390)), (10, -10));
    h.update_mouse_look(&mut cam, (500, 410));
    assert_eq!(cam.pitch, -20_000);
}

#[test]
fn scroll_adjusts_speed_within_range() {
    assert_eq!(normalize_scroll(ScrollDelta::Lines(1000)), 500_000);
    assert_eq!(normalize_scroll(ScrollDelta::Pixels(100_000)), 1_000_000);
    let mut app = RayMarchingApp::new(800, 600);
    app.input(&InputEvent::Wheel(ScrollDelta::Lines(1000)));
    assert_eq!(app.camera.speed, 2_250_000);
    app.input(&InputEvent::Wheel(ScrollDelta::Pixels(-100_000)));
    assert_eq!(app.camera.speed, 1_750_000);
    for _ in 0..100 {
        app.input(&InputEvent::Wheel(ScrollDelta::Lines(3000)));
        assert!(app.camera.speed >= MIN_SPEED && app.camera.speed <= MAX_SPEED);
    }
    assert_eq!(app.camera.speed, MAX_SPEED);
    for _ in 0..100 {
        app.input(&InputEvent::Wheel(ScrollDelta::Lines(-3000)));
        assert!(app.camera.speed >= MIN_SPEED && app.camera.speed <= MAX_SPEED);
    }
    assert_eq!(app.camera.speed, MIN_SPEED);
    app.input(&InputEvent::Wheel(ScrollDelta::Lines(i32::MAX)));
    assert_eq!(app.camera.speed, MAX_SPEED);
}

#[test]
fn power_and_iterations_nudged_within_range() {
    let mut app = RayMarchingApp::new(800, 600);
    let b = default_basis();
    app.input(&key(Key::KeyE, true));
    app.update(500_000_000, b);
    assert_eq!(app.uniforms.fractal_power, 9_000_000_000);
    app.update(100_000_000_000, b);
    assert_eq!(app.uniforms.fractal_power, 20_000_000_000);
    app.input(&key(Key::KeyE, false));
    app.input(&key(Key::KeyQ, true));
    app.update(250_000_000, b);
    assert_eq!(app.uniforms.fractal_power, 19_500_000_000);
    app.update(100_000_000_000, b);
    assert_eq!(app.uniforms.fractal_power, 1_000_000_000);
    app.input(&key(Key::KeyQ, false));

    app.input(&key(Key::KeyX, true));
    app.update(SIXTIETH, b);
    assert_eq!(app.uniforms.fractal_iterations, 64);
    app.update(1_000_000_000, b);
    assert_eq!(app.uniforms.fractal_iterations, 84);
    app.update(1_000_000_000_000, b);
    assert_eq!(app.uniforms.fractal_iterations, 256);
    app.input(&key(Key::KeyX, false));
    app.input(&key(Key::KeyZ, true));
    app.update(500_000_000, b);
    assert_eq!(app.uniforms.fractal_iterations, 246);
    app.update(1_000_000_000_000, b);
    assert_eq!(app.uniforms.fractal_iterations, 8);
}

#[test]
fn reset_restores_default_pose() {
    let mut app = RayMarchingApp::new(800, 600);
    let b = default_basis();
    app.input(&key(Key::KeyW, true));
    app.update(1_000_000_000, b);
    app.input(&InputEvent::Wheel(ScrollDelta::Lines(4000)));
    app.input(&InputEvent::Button { button: MouseButton::Left, pressed: true });
    app.grab_finished(true);
    app.input(&InputEvent::CursorMoved { x: 300, y: 200 });
    app.resize(1024, 768);
    assert_ne!(app.camera.position.z, -3_000_000);
    app.input(&key(Key::KeyR, true));
    app.update(SIXTIETH, b);
    assert_eq!(app.camera.position, Vec3 { x: 0, y: 0, z: -3_000_000 });
    assert_eq!(app.camera.yaw, 90_000_000);
    assert_eq!(app.camera.pitch, 0);
    assert_eq!(app.camera.speed, 2_000_000);
    assert_eq!((app.camera.width, app.camera.height), (1024, 768));
    assert_eq!(app.uniforms.camera_pos, app.camera.position);

    let mut cam = Camera::new(16, 9);
    cam.speed = 5_000_000;
    cam.pitch = 1_000;
    cam.position = Vec3 { x: 1, y: 2, z: 3 };
    cam.reset();
    assert_eq!(cam.position, Vec3 { x: 0, y: 0, z: -3_000_000 });
    assert_eq!((cam.width, cam.height, cam.speed, cam.yaw, cam.pitch), (16, 9, 2_000_000, 90_000_000, 0));
}

#[test]
fn fps_window_closes_after_one_second() {
    let mut app = RayMarchingApp::new(800, 600);
    let b = default_basis();
    for _ in 0..59 {
        app.update(SIXTIETH, b);
    }
    assert_eq!(app.frame_count, 59);
    assert_eq!(app.current_fps, 0);
    app.update(SIXTIETH, b);
    assert_eq!(app.current_fps, 59_999);
    assert!((app.current_fps as f64 / 1000.0 - 60.0).abs() < 0.01);
    assert_eq!(app.frame_count, 0);
    assert_eq!(app.fps_update_timer, 0);
    assert_eq!(app.uniforms.time, 60 * SIXTIETH);
}

#[test]
fn capture_falls_back_when_grab_fails() {
    let mut app = RayMarchingApp::new(800, 600);
    let r = app.input(&key(Key::Tab, true));
    assert!(r.handled);
    assert_eq!(r.grab, Some(CursorGrab::Confined));
    assert!(app.input_handler.mouse_captured);
    let visible = app.grab_finished(false);
    assert!(!app.input_handler.mouse_captured);
    assert!(visible);

    let r = app.input(&InputEvent::Button { button: MouseButton::Left, pressed: true });
    assert_eq!(r.grab, Some(CursorGrab::Confined));
    assert!(app.grab_finished(false));
    assert!(!app.input_handler.mouse_captured);
}

#[test]
fn capture_toggles_with_tab() {
    let mut app = RayMarchingApp::new(800, 600);
    app.input(&key(Key::Tab, true));
    assert!(!app.grab_finished(true));
    assert!(app.input_handler.mouse_captured);
    app.input(&key(Key::Tab, false));
    let r = app.input(&key(Key::Tab, true));
    assert_eq!(r.grab, Some(CursorGrab::Released));
    assert!(app.grab_finished(true));
    assert!(!app.input_handler.mouse_captured);
    // a click while captured asks for nothing
    app.input(&key(Key::Tab, true));
    app.grab_finished(true);
    let r = app.input(&InputEvent::Button { button: MouseButton::Left, pressed: true });
    assert_eq!(r.grab, None);
    assert!(app.input_handler.left_mouse_pressed);
}

#[test]
fn forward_for_one_second_moves_two_units() {
    let mut app = RayMarchingApp::new(800, 600);
    app.input(&key(Key::KeyW, true));
    for _ in 0..60 {
        let b = basis_for(app.camera.yaw as f64 / 1e6, app.camera.pitch as f64 / 1e6);
        assert_eq!(b, default_basis());
        app.update(SIXTIETH, b);
    }
    let p = app.camera.position;
    assert_eq!(p, Vec3 { x: 0, y: 0, z: -3_000_000 + 60 * 33_333 });
    let moved = (p.z + 3_000_000) as f64 / 1e6;
    assert!((moved - 2.0).abs() < 0.001);
    assert_eq!(app.uniforms.camera_pos, p);
}

#[test]
fn variant_key_selects_fractal_and_name() {
    let mut app = RayMarchingApp::new(800, 600);
    app.input(&key(Key::Digit4, true));
    app.update(SIXTIETH, default_basis());
    assert_eq!(app.uniforms.fractal_type, 3);
    assert_eq!(app.uniforms.get_fractal_name(), "Kleinian");
    app.input(&key(Key::Digit4, false));
    app.input(&key(Key::Digit3, true));
    app.update(SIXTIETH, default_basis());
    assert_eq!(app.uniforms.fractal_type, 2);
    assert_eq!(app.uniforms.get_fractal_name(), "Menger Sponge");
    app.input(&key(Key::Digit0, true));
    app.update(SIXTIETH, default_basis());
    assert_eq!(app.uniforms.fractal_type, AUTO_CYCLE);
    assert_eq!(app.uniforms.get_fractal_name(), "Auto-cycle");
}

#[test]
fn fractal_names() {
    let mut u = Uniforms::new();
    let names = ["Mandelbulb", "Julia Set", "Menger Sponge", "Kleinian", "Apollonian", "Mandelbox"];
    for (t, n) in names.iter().enumerate() {
        u.fractal_type = t as u32;
        assert_eq!(u.get_fractal_name(), *n);
    }
    u.fractal_type = 99;
    assert_eq!(u.get_fractal_name(), "Auto-cycle");
    u.fractal_type = 6;
    assert_eq!(u.get_fractal_name(), "Unknown");
    assert_eq!(Uniforms::new().fractal_iterations, 64);
    assert_eq!(Uniforms::new().fractal_power, 8_000_000_000);
}

#[test]
fn modifiers_scale_movement() {
    let b = default_basis();
    let run = |keys: &[Key]| {
        let mut h = InputHandler::new();
        for k in keys {
            h.handle_event(&key(*k, true));
        }
        let mut cam = Camera::new(4, 3);
        h.update_camera(&mut cam, 100_000_000, b);
        (cam.position.x, cam.position.y, cam.position.z + 3_000_000)
    };
    assert_eq!(run(&[Key::KeyW]), (0, 0, 200_000));
    assert_eq!(run(&[Key::ArrowUp, Key::KeyW]), (0, 0, 400_000));
    assert_eq!(run(&[Key::KeyW, Key::ControlLeft]), (0, 0, 20_000));
    assert_eq!(run(&[Key::KeyW, Key::ShiftLeft]), (0, 0, 600_000));
    assert_eq!(run(&[Key::KeyW, Key::ShiftLeft, Key::ControlLeft]), (0, 0, 20_000));
    assert_eq!(run(&[Key::KeyW, Key::ShiftLeft, Key::Space]), (0, 100_000, 200_000));
    assert_eq!(run(&[Key::Space]), (0, 200_000, 0));
    assert_eq!(run(&[Key::KeyC]), (0, -200_000, 0));
    assert_eq!(run(&[Key::KeyD]), (-200_000, 0, 0));
    assert_eq!(run(&[Key::ArrowLeft]), (200_000, 0, 0));
    assert_eq!(run(&[Key::KeyS, Key::ArrowDown]), (0, 0, -400_000));
    assert_eq!(run(&[Key::KeyW, Key::KeyS]), (0, 0, 0));
}

#[test]
fn status_key_and_unhandled_events() {
    let mut app = RayMarchingApp::new(800, 600);
    let r = app.input(&key(Key::KeyF, true));
    assert!(r.handled && r.print_status && r.grab.is_none());
    let r = app.input(&InputEvent::Key { key: None, pressed: true });
    assert!(r.handled && !r.print_status);
    assert!(!app.input(&InputEvent::RedrawRequested).handled);
    assert!(!app.input(&InputEvent::Resized { width: 3, height: 4 }).handled);
    assert!(app.should_exit(&InputEvent::CloseRequested));
    assert!(app.should_exit(&key(Key::Escape, true)));
    assert!(!app.should_exit(&key(Key::Escape, false)));
    assert!(!app.should_exit(&key(Key::KeyW, true)));
}

#[test]
fn zero_area_resize_is_ignored() {
    let mut app = RayMarchingApp::new(800, 600);
    let h = &app.input_handler;
    assert!(!h.left_mouse_pressed && !h.right_mouse_pressed && !h.middle_mouse_pressed);
    assert_eq!(h.last_mouse_pos, (0, 0));
    assert!(!app.resize(0, 600));
    assert!(!app.resize(800, 0));
    assert_eq!((app.camera.width, app.camera.height), (800, 600));
    assert!(app.resize(1920, 1080));
    assert_eq!((app.camera.width, app.camera.height), (1920, 1080));
}

#[test]
fn render_outcomes_choose_loop_action() {
    assert_eq!(after_render(RenderOutcome::Presented), LoopAction::Continue);
    assert_eq!(after_render(RenderOutcome::SurfaceLost), LoopAction::Reconfigure);
    assert_eq!(after_render(RenderOutcome::SurfaceOutdated), LoopAction::Reconfigure);
    assert_eq!(after_render(RenderOutcome::OutOfMemory), LoopAction::Exit);
    assert_eq!(after_render(RenderOutcome::Timeout), LoopAction::Report);
    assert_eq!(after_render(RenderOutcome::Other), LoopAction::Report);
}
