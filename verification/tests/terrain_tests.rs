use terrain_chunk::camera::{Camera, MOUSE_SENSITIVITY_URAD, PITCH_LIMIT_URAD};
use terrain_chunk::event::{
    get_expected_size, CanvasResizeData, Event, EventQueue, KeyTracker, KeyboardEventData,
    KeyboardKey, MouseButton, MouseEventData,
};
use terrain_chunk::fixed::{cos_fx, div_unit, reduce_turn, sin_fx, FULL_TURN_URAD, FX_UNIT,
    HALF_TURN_URAD, QUARTER_TURN_URAD};
use terrain_chunk::mesh::{generate, Density, MAX_CHUNK_SIZE};
use terrain_chunk::noise::{bake_texture, row_stride, NoiseSource, TestSource};
use terrain_chunk::runtime::{recovery_action, FrameRecovery, Phase, Runtime, SurfaceIssue};

fn key_event(key: KeyboardKey) -> KeyboardEventData {
    KeyboardEventData { alt_key: false, ctrl_key: false, shift_key: false, meta_key: false, key }
}

fn mouse_move(dx: i32, dy: i32) -> MouseEventData {
    MouseEventData {
        alt_key: false,
        ctrl_key: false,
        shift_key: false,
        meta_key: false,
        button: MouseButton::Left,
        movement_x: dx,
        movement_y: dy,
        x: 0,
        y: 0,
    }
}

// Mesh generation: structural invariants on a concrete chunk.
#[test]
fn generate_mesh_invariants() {
    let mesh = generate(10, Density { num: 1, den: 1 }).unwrap();
    assert_eq!(mesh.indices.len() % 3, 0);
    for &idx in mesh.indices.iter() {
        assert!((idx as usize) < mesh.vertices.len());
    }
    let uv_den = mesh.uv_denominator();
    for v in mesh.vertices.iter() {
        assert!((v.x as u64) <= uv_den);
        assert!((v.y as u64) <= uv_den);
    }
    // size 10, density 1: a boundary ring of 36 points and an 8x8 interior grid
    assert_eq!(mesh.vertices.len(), 36 + 64);
    assert_eq!(mesh.extent, 9);
    assert_eq!(mesh.subdiv, 9);
}

#[test]
fn generate_mesh_fractional_density() {
    // size 12, density 3/10: ceil(10 * 3 / 10) = 3 interior points per axis
    let mesh = generate(12, Density { num: 3, den: 10 }).unwrap();
    assert_eq!(mesh.vertices.len(), 4 * 12 - 4 + 9);
    assert_eq!(mesh.subdiv, 4);
    assert_eq!(mesh.extent, 11);
}

// Triangulation is deterministic: identical input, identical triangles.
#[test]
fn generate_is_deterministic() {
    let d = Density { num: 7, den: 9 };
    let m1 = generate(17, d).unwrap();
    let m2 = generate(17, d).unwrap();
    assert_eq!(m1.indices, m2.indices);
    assert_eq!(m1.vertices.len(), m2.vertices.len());
    for (a, b) in m1.vertices.iter().zip(m2.vertices.iter()) {
        assert_eq!((a.x, a.y), (b.x, b.y));
    }
    assert_eq!(m1.subdiv, m2.subdiv);
    assert_eq!(m1.extent, m2.extent);
}

// End to end: a 10x10 chunk at full density triangulates into at least three
// triangles, with no error.
#[test]
fn generate_end_to_end() {
    let mesh = generate(10, Density { num: 1, den: 1 }).unwrap();
    assert!(mesh.indices.len() >= 9);
}

#[test]
fn generate_minimal_chunk() {
    let mesh = generate(3, Density { num: 1, den: 1 }).unwrap();
    assert_eq!(mesh.vertices.len(), 9);
    assert!(mesh.indices.len() >= 3);
}

#[test]
fn generate_rejects_degenerate_size() {
    assert!(generate(0, Density { num: 1, den: 1 }).is_err());
    assert!(generate(2, Density { num: 1, den: 2 }).is_err());
}

#[test]
fn generate_sparse_density_single_interior_point() {
    // The sparsest density rounds up to one interior point per axis.
    let mesh = generate(300, Density { num: 1, den: u32::MAX }).unwrap();
    assert!(300 <= MAX_CHUNK_SIZE);
    assert_eq!(mesh.subdiv, 2);
    assert_eq!(mesh.vertices.len(), 4 * 300 - 4 + 1);
}

// The reference noise source is pure and bounded.
#[test]
fn noise_sample_pure_and_bounded() {
    let src = TestSource;
    for &(x, y) in &[(0i64, 0i64), (123456, -654321), (HALF_TURN_URAD, HALF_TURN_URAD),
        (i64::MAX, i64::MIN), (-1, 1)] {
        let a = src.sample(x, y, 0);
        let b = src.sample(x, y, 0);
        assert_eq!(a, b);
        assert!(-FX_UNIT <= a && a <= FX_UNIT);
    }
}

// Regression baseline: the sample at the origin is exactly the fixed-point one.
#[test]
fn noise_sample_origin_constant() {
    let src = TestSource;
    assert_eq!(src.sample(0, 0, 0), FX_UNIT);
    assert_eq!(src.sample(0, 0, 12345), FX_UNIT);
}

#[test]
fn noise_sample_half_turn() {
    let src = TestSource;
    // cos of half a turn is exactly -1 in the fixed-point model
    assert_eq!(src.sample(HALF_TURN_URAD, HALF_TURN_URAD, 0), -FX_UNIT);
    assert_eq!(src.sample(HALF_TURN_URAD, 0, 0), 0);
}

#[test]
fn trig_quadrant_values() {
    assert_eq!(cos_fx(0), FX_UNIT);
    assert_eq!(sin_fx(0), 0);
    assert_eq!(sin_fx(QUARTER_TURN_URAD), FX_UNIT);
    assert_eq!(cos_fx(HALF_TURN_URAD), -FX_UNIT);
    assert_eq!(sin_fx(FULL_TURN_URAD), 0);
    assert_eq!(cos_fx(-FULL_TURN_URAD), FX_UNIT);
}

#[test]
fn fixed_point_division_rounds_down() {
    assert_eq!(div_unit(FX_UNIT * 3), 3);
    assert_eq!(div_unit(-FX_UNIT * 3), -3);
    assert_eq!(div_unit(1), 0);
    assert_eq!(div_unit(-1), -1);
    assert_eq!(reduce_turn(-1), FULL_TURN_URAD - 1);
    assert_eq!(reduce_turn(FULL_TURN_URAD + 5), 5);
}

#[test]
fn texture_stride_is_padded() {
    assert_eq!(row_stride(512, 64), 512);
    assert_eq!(row_stride(5, 4), 8);
    assert_eq!(row_stride(1, 64), 64);
    assert_eq!(row_stride(0, 8), 0);
}

#[test]
fn bake_texture_layout_and_padding() {
    let src = TestSource;
    // 3 texels per row padded to an alignment of 2: stride 4
    let buf = bake_texture(&src, 3, 100000, 0, 2);
    assert_eq!(buf.len(), 4 * 3);
    for row in 0..3usize {
        // padding texel past the row's end is zero
        assert_eq!(buf[row * 4 + 3], 0);
        for col in 0..3usize {
            let v = buf[row * 4 + col];
            assert!(0 <= v && v <= FX_UNIT);
            let expected = (src.sample(col as i64 * 100000, row as i64 * 100000, 0) + FX_UNIT) / 2;
            assert_eq!(v, expected);
        }
    }
}

#[test]
fn bake_texture_zero_step_is_uniform() {
    let src = TestSource;
    let buf = bake_texture(&src, 2, 0, 7, 2);
    // every in-row texel is the remapped origin sample, exactly FX_UNIT
    assert_eq!(buf, vec![FX_UNIT, FX_UNIT, FX_UNIT, FX_UNIT]);
}

// Key classification, including its historical oddities.
#[test]
fn keyboard_key_extract_named() {
    assert_eq!(KeyboardKey::extract("Alt"), KeyboardKey::Alt);
    assert_eq!(KeyboardKey::extract("AltGraph"), KeyboardKey::AltGr);
    assert_eq!(KeyboardKey::extract("CapsLock"), KeyboardKey::CapsLock);
    assert_eq!(KeyboardKey::extract("Control"), KeyboardKey::Control);
    assert_eq!(KeyboardKey::extract("Fn"), KeyboardKey::Fn);
    assert_eq!(KeyboardKey::extract("FnLock"), KeyboardKey::FnLock);
    assert_eq!(KeyboardKey::extract("Hyper"), KeyboardKey::Hyper);
    assert_eq!(KeyboardKey::extract("Meta"), KeyboardKey::Meta);
    assert_eq!(KeyboardKey::extract("NumLock"), KeyboardKey::Meta);
    assert_eq!(KeyboardKey::extract("ScrollLock"), KeyboardKey::ScrollLock);
    assert_eq!(KeyboardKey::extract("Shift"), KeyboardKey::Shift);
    assert_eq!(KeyboardKey::extract("Super"), KeyboardKey::Super);
    assert_eq!(KeyboardKey::extract("Symbol"), KeyboardKey::Symbol);
    assert_eq!(KeyboardKey::extract("SymbolLock"), KeyboardKey::Symbol);
    assert_eq!(KeyboardKey::extract("Dead"), KeyboardKey::Dead);
}

#[test]
fn keyboard_key_extract_characters_and_unknown() {
    assert_eq!(KeyboardKey::extract("w"), KeyboardKey::Character('w'));
    assert_eq!(KeyboardKey::extract(" "), KeyboardKey::Character(' '));
    assert_eq!(KeyboardKey::extract("é"), KeyboardKey::Character('é'));
    assert_eq!(KeyboardKey::extract("F13"), KeyboardKey::Unidentified);
    assert_eq!(KeyboardKey::extract(""), KeyboardKey::Unidentified);
}

#[test]
fn keyboard_event_data_extract() {
    let d = KeyboardEventData::extract(true, false, true, false, "Shift");
    assert_eq!(d.key, KeyboardKey::Shift);
    assert!(d.alt_key && d.shift_key && !d.ctrl_key && !d.meta_key);
    let d = KeyboardEventData::extract(false, false, false, false, "q");
    assert_eq!(d.key, KeyboardKey::Character('q'));
}

#[test]
fn mouse_event_data_extract() {
    let d = MouseEventData::extract(false, true, false, false, 2, -3, 4, 10, 20);
    assert!(matches!(d.button, MouseButton::Right));
    assert_eq!((d.movement_x, d.movement_y, d.x, d.y), (-3, 4, 10, 20));
    assert!(d.ctrl_key && !d.alt_key);
}

#[test]
fn mouse_button_extract() {
    assert!(matches!(MouseButton::extract(0), MouseButton::Left));
    assert!(matches!(MouseButton::extract(1), MouseButton::Middle));
    assert!(matches!(MouseButton::extract(2), MouseButton::Right));
    assert!(matches!(MouseButton::extract(7), MouseButton::OtherButton(7)));
}

#[test]
fn key_tracker_defaults_and_updates() {
    let mut t = KeyTracker::new();
    assert!(!t.is_key_down(KeyboardKey::Character('w')));
    t.set_key_down(KeyboardKey::Character('w'));
    assert!(t.is_key_down(KeyboardKey::Character('w')));
    assert!(!t.is_key_down(KeyboardKey::Character('a')));
    t.set_key_up(KeyboardKey::Character('w'));
    assert!(!t.is_key_down(KeyboardKey::Character('w')));
    t.set_key_down(KeyboardKey::Shift);
    assert!(t.is_key_down(KeyboardKey::Shift));
}

// FIFO order: enqueuing E1 then E2 and draining yields E1 before E2.
#[test]
fn event_queue_fifo_order() {
    let mut q = EventQueue::new(300, 200);
    let e1 = Event::KeyDown(key_event(KeyboardKey::Character('w')));
    let e2 = Event::KeyUp(key_event(KeyboardKey::Character('w')));
    q.enqueue(e1, 300, 200);
    q.enqueue(e2, 300, 200);
    assert!(matches!(q.pop(), Some(Event::KeyDown(_))));
    assert!(matches!(q.pop(), Some(Event::KeyUp(_))));
    assert!(q.pop().is_none());
    assert!(q.empty());
}

// Resize detection: exactly one event per changed report, none when unchanged.
#[test]
fn detect_resize_emits_exactly_one_event() {
    let mut q = EventQueue::new(300, 200);
    q.detect_resize(400, 250);
    assert_eq!(q.events.len(), 1);
    match &q.events[0] {
        Event::CanvasResize(CanvasResizeData { old_width, old_height, new_width, new_height }) => {
            assert_eq!((*old_width, *old_height), (300, 200));
            assert_eq!((*new_width, *new_height), (400, 250));
        }
        other => panic!("expected a resize event, got {:?}", other),
    }
    // the same report again: the stored size now matches, nothing is enqueued
    q.detect_resize(400, 250);
    assert_eq!(q.events.len(), 1);
}

#[test]
fn detect_resize_applies_minimum_size() {
    assert_eq!(get_expected_size(100, -5), (150, 150));
    assert_eq!(get_expected_size(800, 600), (800, 600));
    let mut q = EventQueue::new(150, 150);
    q.detect_resize(20, 30);
    assert_eq!(q.events.len(), 0);
}

#[test]
fn enqueue_runs_resize_detection_first() {
    let mut q = EventQueue::new(300, 200);
    q.enqueue(Event::KeyDown(key_event(KeyboardKey::Shift)), 400, 250);
    assert_eq!(q.events.len(), 2);
    assert!(matches!(q.events[0], Event::CanvasResize(_)));
    assert!(matches!(q.events[1], Event::KeyDown(_)));
}

// Camera pitch stays strictly inside the poles under any drag sequence.
#[test]
fn camera_pitch_clamped_under_drags() {
    let mut cam = Camera::new(0, 1000000, 0, 0, 0, 4, 3, 45000);
    for &dy in &[100000i32, -2000000, 500, 2000000, -7, i32::MAX, i32::MIN] {
        cam.apply_mouse(13, dy);
        assert!(-PITCH_LIMIT_URAD <= cam.pitch && cam.pitch <= PITCH_LIMIT_URAD);
        assert!(PITCH_LIMIT_URAD < QUARTER_TURN_URAD);
        assert!(0 <= cam.yaw && cam.yaw < FULL_TURN_URAD);
    }
    cam.apply_mouse(0, i32::MIN);
    assert_eq!(cam.pitch, PITCH_LIMIT_URAD);
    cam.apply_mouse(0, i32::MAX);
    assert_eq!(cam.pitch, -PITCH_LIMIT_URAD);
}

#[test]
fn camera_new_clamps_pitch_and_wraps_yaw() {
    let cam = Camera::new(0, 0, 0, 9000000, FULL_TURN_URAD + 17, 1, 1, 45000);
    assert_eq!(cam.pitch, PITCH_LIMIT_URAD);
    assert_eq!(cam.yaw, 17);
}

#[test]
fn camera_axes_at_zero_yaw() {
    let cam = Camera::new(0, 0, 0, 0, 0, 1, 1, 45000);
    assert_eq!(cam.get_forward(), (FX_UNIT, 0, 0));
    assert_eq!(cam.get_direction(), (FX_UNIT, 0, 0));
}

#[test]
fn camera_move_along_forward() {
    let mut cam = Camera::new(0, 0, 0, 0, 0, 1, 1, 45000);
    cam.do_move(1000000, 0, 0);
    assert_eq!((cam.eye_x, cam.eye_y, cam.eye_z), (1000000, 0, 0));
    cam.do_move(0, 0, 250000);
    assert_eq!((cam.eye_x, cam.eye_y, cam.eye_z), (1000000, 250000, 0));
    // at yaw 0 the planar right axis is +z
    cam.do_move(0, 500000, 0);
    assert_eq!((cam.eye_x, cam.eye_y, cam.eye_z), (1000000, 250000, 500000));
}

#[test]
fn camera_mouse_turn_scales_with_sensitivity() {
    let mut cam = Camera::new(0, 0, 0, 0, 0, 1, 1, 45000);
    cam.apply_mouse(10, -3);
    assert_eq!(cam.yaw, 10 * MOUSE_SENSITIVITY_URAD);
    assert_eq!(cam.pitch, 3 * MOUSE_SENSITIVITY_URAD);
}

#[test]
fn surface_recovery_never_terminates() {
    assert!(matches!(recovery_action(SurfaceIssue::Lost), FrameRecovery::ReconfigureSurface));
    assert!(matches!(recovery_action(SurfaceIssue::Outdated), FrameRecovery::ReconfigureSurface));
    assert!(matches!(recovery_action(SurfaceIssue::Timeout), FrameRecovery::SkipFrame));
    assert!(matches!(recovery_action(SurfaceIssue::OutOfMemory), FrameRecovery::SkipFrame));
    assert!(matches!(recovery_action(SurfaceIssue::Other), FrameRecovery::SkipFrame));
}

// One frame: a held 'w' for 0.1 s at speed 0.5 moves the eye exactly 0.05
// units along the planar forward axis.
#[test]
fn tick_moves_eye_exactly() {
    let cam = Camera::new(0, 1000000, 0, 0, 0, 300, 200, 45000);
    let mut rt = Runtime::new(cam, 300, 200, 1000);
    rt.queue.enqueue(Event::KeyDown(key_event(KeyboardKey::Character('w'))), 300, 200);
    let out = rt.tick(1000 + 100000, 300, 200).unwrap();
    assert_eq!(out.dt_micros, 100000);
    assert!(out.resizes.is_empty());
    // 0.05 units is 50000 micro-units
    assert_eq!(rt.camera.eye_x, 50000);
    assert_eq!(rt.camera.eye_y, 1000000);
    assert_eq!(rt.camera.eye_z, 0);
    assert_eq!(rt.frames, 1);
    assert_eq!(rt.phase, Phase::Running);
}

#[test]
fn tick_first_frame_uses_session_start() {
    let cam = Camera::new(0, 0, 0, 0, 0, 1, 1, 45000);
    let mut rt = Runtime::new(cam, 150, 150, 500000);
    let out = rt.tick(500000, 150, 150).unwrap();
    assert_eq!(out.dt_micros, 0);
    assert_eq!(rt.camera.eye_x, 0);
}

#[test]
fn tick_drains_queue_in_order() {
    let cam = Camera::new(0, 0, 0, 0, 0, 1, 1, 45000);
    let mut rt = Runtime::new(cam, 300, 200, 0);
    rt.queue.enqueue(Event::KeyDown(key_event(KeyboardKey::Character('a'))), 300, 200);
    rt.queue.enqueue(Event::KeyUp(key_event(KeyboardKey::Character('a'))), 300, 200);
    rt.tick(1000, 300, 200).unwrap();
    assert!(rt.queue.empty());
    assert!(!rt.keyboard.is_key_down(KeyboardKey::Character('a')));
    // the reverse order leaves the key held
    rt.queue.enqueue(Event::KeyUp(key_event(KeyboardKey::Character('a'))), 300, 200);
    rt.queue.enqueue(Event::KeyDown(key_event(KeyboardKey::Character('a'))), 300, 200);
    rt.tick(2000, 300, 200).unwrap();
    assert!(rt.keyboard.is_key_down(KeyboardKey::Character('a')));
}

#[test]
fn tick_reports_resize_and_updates_aspect() {
    let cam = Camera::new(0, 0, 0, 0, 0, 300, 200, 45000);
    let mut rt = Runtime::new(cam, 300, 200, 0);
    let out = rt.tick(1000, 450, 260).unwrap();
    assert_eq!(out.resizes, vec![(450, 260)]);
    assert_eq!((rt.camera.aspect_num, rt.camera.aspect_den), (450, 260));
    assert_eq!((rt.queue.canvas_width, rt.queue.canvas_height), (450, 260));
    // an unchanged report enqueues nothing and reconfigures nothing
    let out2 = rt.tick(2000, 450, 260).unwrap();
    assert!(out2.resizes.is_empty());
}

#[test]
fn tick_folds_mouse_drag() {
    let cam = Camera::new(0, 0, 0, 0, 0, 300, 200, 45000);
    let mut rt = Runtime::new(cam, 300, 200, 0);
    rt.queue.enqueue(Event::MouseMove(mouse_move(5, -4)), 300, 200);
    rt.tick(1000, 300, 200).unwrap();
    assert_eq!(rt.camera.yaw, 5 * MOUSE_SENSITIVITY_URAD);
    assert_eq!(rt.camera.pitch, 4 * MOUSE_SENSITIVITY_URAD);
}

#[test]
fn cleanup_terminates_frame_scheduling() {
    let cam = Camera::new(0, 0, 0, 0, 0, 1, 1, 45000);
    let mut rt = Runtime::new(cam, 150, 150, 0);
    rt.tick(1000, 150, 150).unwrap();
    rt.cleanup();
    assert_eq!(rt.phase, Phase::Terminated);
    assert!(rt.tick(2000, 150, 150).is_none());
    assert_eq!(rt.frames, 1);
}

#[test]
fn handle_event_ignores_zero_dimension_resize() {
    let cam = Camera::new(0, 0, 0, 0, 0, 300, 200, 45000);
    let mut rt = Runtime::new(cam, 300, 200, 0);
    let ev = Event::CanvasResize(CanvasResizeData {
        old_width: 300,
        old_height: 200,
        new_width: 0,
        new_height: 500,
    });
    let r = rt.handle_event(ev);
    assert!(r.is_none());
    assert_eq!((rt.camera.aspect_num, rt.camera.aspect_den), (300, 200));
}
