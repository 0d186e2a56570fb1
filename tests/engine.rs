use v4dv::camera::{Camera, OrthographicProjection};
use v4dv::clock::{AnimationClock, FIXED_ONE};
use v4dv::cmap::{ColorMap, ColorMapError, ColorMapTexture, ControlPoint, ExactRgba, Rgba8};
use v4dv::composite::{blend_over, composite_step, march, Accum};
use v4dv::controller::{CameraController, Key};
use v4dv::viewer::{
    recover_from, MouseButton, Recovery, RenderConfig, SurfaceError, ViewerAction, ViewerEvent,
    WindowContext,
};
use v4dv::volume::{normalize, Aabb, FilterMode, Point3, Volume, VolumeError};

fn cube(side: i32) -> Aabb {
    Aabb::new(Point3 { x: 0, y: 0, z: 0 }, Point3 { x: side, y: side, z: side })
}

fn rgba(r: u8, g: u8, b: u8, a: u8) -> Rgba8 {
    Rgba8 { r, g, b, a }
}

fn point(pos: u32, color: Rgba8) -> ControlPoint {
    ControlPoint { pos, color }
}

fn black_to_white() -> ColorMap {
    ColorMap::new(vec![point(0, rgba(0, 0, 0, 255)), point(FIXED_ONE, rgba(255, 255, 255, 255))])
        .unwrap()
}

fn config() -> RenderConfig {
    RenderConfig {
        no_vsync: false,
        show_colormap_editor: true,
        show_volume_info: true,
        vmin: None,
        vmax: None,
        distance_scale: FIXED_ONE,
        duration_ns: None,
        background: rgba(0, 0, 0, 255),
    }
}

fn viewer() -> WindowContext {
    WindowContext::new(1024, 768, 8192, 1000, cube(10), 1, config(), true, black_to_white())
}

#[test]
fn volume_load_accepts_matching_shape() {
    let v = Volume::load(vec![1; 8], 2, 2, 2, 1, 1, cube(1)).unwrap();
    assert_eq!(v.data.len(), 8);
    assert_eq!(v.timesteps, 1);
}

#[test]
fn volume_load_rejects_wrong_length() {
    let r = Volume::load(vec![1; 7], 2, 2, 2, 1, 1, cube(1));
    assert!(matches!(r, Err(VolumeError::ShapeMismatch)));
}

#[test]
fn volume_load_rejects_empty_dimension() {
    let r = Volume::load(vec![], 2, 0, 2, 1, 1, cube(1));
    assert!(matches!(r, Err(VolumeError::EmptyDimension)));
}

#[test]
fn volume_load_rejects_point_box() {
    let p = Point3 { x: 3, y: 3, z: 3 };
    let r = Volume::load(vec![1; 8], 2, 2, 2, 1, 1, Aabb::new(p, p));
    assert!(matches!(r, Err(VolumeError::DegenerateAabb)));
}

#[test]
fn volume_index_layout() {
    let data: Vec<u16> = (0..16).collect();
    let v = Volume::load(data, 2, 2, 2, 2, 1, cube(1)).unwrap();
    assert_eq!(v.index(1, 1, 1, 0, 0), 14);
    assert_eq!(v.sample(1, 0, 1, 1, 0), 11);
}

#[test]
fn linear_temporal_filter_halfway_is_mean() {
    let data: Vec<u16> = (0..10).map(|t| t * 100).collect();
    let v = Volume::load(data, 1, 1, 1, 1, 10, cube(1)).unwrap();
    let r = v.sample_at_time(0, 0, 0, 0, FIXED_ONE / 2, FilterMode::Linear);
    assert_eq!(r, 450 * FIXED_ONE as u64);
    assert_eq!(2 * r, (400 + 500) * FIXED_ONE as u64);
}

#[test]
fn nearest_temporal_filter_rounds_to_a_timestep() {
    let data: Vec<u16> = (0..10).map(|t| t * 100).collect();
    let v = Volume::load(data, 1, 1, 1, 1, 10, cube(1)).unwrap();
    let r = v.sample_at_time(0, 0, 0, 0, FIXED_ONE / 2, FilterMode::Nearest);
    assert_eq!(r, 500 * FIXED_ONE as u64);
    let r0 = v.sample_at_time(0, 0, 0, 0, 0, FilterMode::Nearest);
    assert_eq!(r0, 0);
}

#[test]
fn single_timestep_ignores_time() {
    let v = Volume::load(vec![7], 1, 1, 1, 1, 1, cube(1)).unwrap();
    assert_eq!(v.sample_at_time(0, 0, 0, 0, 1234, FilterMode::Linear), 7 * FIXED_ONE as u64);
}

#[test]
fn value_range_finds_extremes() {
    let v = Volume::load(vec![5, 2, 9, 4], 2, 2, 1, 1, 1, cube(1)).unwrap();
    assert_eq!(v.value_range(), (2, 9));
}

#[test]
fn normalize_maps_and_clamps() {
    assert_eq!(normalize(FIXED_ONE as u64, 0, 1), FIXED_ONE);
    assert_eq!(normalize(5 * FIXED_ONE as u64, 0, 10), FIXED_ONE / 2);
    assert_eq!(normalize(0, 3, 10), 0);
    assert_eq!(normalize(20 * FIXED_ONE as u64, 3, 10), FIXED_ONE);
}

#[test]
fn colormap_rejects_too_few_points() {
    let r = ColorMap::new(vec![point(0, rgba(0, 0, 0, 0))]);
    assert!(matches!(r, Err(ColorMapError::TooFewPoints)));
}

#[test]
fn colormap_rejects_unordered_points() {
    let r = ColorMap::new(vec![
        point(0, rgba(0, 0, 0, 0)),
        point(500, rgba(1, 1, 1, 1)),
        point(400, rgba(2, 2, 2, 2)),
        point(FIXED_ONE, rgba(3, 3, 3, 3)),
    ]);
    assert!(matches!(r, Err(ColorMapError::Unordered)));
}

#[test]
fn colormap_normalizes_end_points() {
    let m = ColorMap::new(vec![
        point(100, rgba(0, 0, 0, 0)),
        point(200, rgba(1, 1, 1, 1)),
        point(FIXED_ONE + 50, rgba(2, 2, 2, 2)),
    ])
    .unwrap();
    assert_eq!(m.points[0].pos, 0);
    assert_eq!(m.points[1].pos, 200);
    assert_eq!(m.points[2].pos, FIXED_ONE);
}

#[test]
fn colormap_two_point_midpoint() {
    let m = ColorMap::new(vec![point(0, rgba(10, 20, 30, 40)), point(FIXED_ONE, rgba(50, 60, 70, 80))])
        .unwrap();
    assert_eq!(m.evaluate(FIXED_ONE / 2).round(), rgba(30, 40, 50, 60));
}

#[test]
fn colormap_evaluate_clamps_outside() {
    let m = black_to_white();
    assert_eq!(m.evaluate(0).round(), rgba(0, 0, 0, 255));
    assert_eq!(m.evaluate(FIXED_ONE).round(), rgba(255, 255, 255, 255));
    assert_eq!(m.evaluate(FIXED_ONE * 3).round(), rgba(255, 255, 255, 255));
    assert_eq!(m.evaluate(FIXED_ONE / 2).round(), rgba(127, 127, 127, 255));
}

#[test]
fn colormap_evaluate_picks_segment() {
    let m = ColorMap::new(vec![
        point(0, rgba(0, 0, 0, 0)),
        point(FIXED_ONE / 2, rgba(200, 100, 0, 50)),
        point(FIXED_ONE, rgba(0, 0, 0, 0)),
    ])
    .unwrap();
    assert_eq!(m.evaluate(FIXED_ONE / 4).round(), rgba(100, 50, 0, 25));
    assert_eq!(m.evaluate(FIXED_ONE / 2).round(), rgba(200, 100, 0, 50));
    assert_eq!(m.evaluate(3 * FIXED_ONE / 4).round(), rgba(100, 50, 0, 25));
}

#[test]
fn bake_samples_evenly() {
    let m = black_to_white();
    let t = m.bake(3);
    assert_eq!(t, vec![0, 0, 0, 255, 127, 127, 127, 255, 255, 255, 255, 255]);
}

#[test]
fn bake_is_deterministic() {
    let m = black_to_white();
    let a = ColorMapTexture::new(&m, 256);
    let b = ColorMapTexture::new(&m, 256);
    assert_eq!(a.data.len(), 1024);
    assert_eq!(a.data, b.data);
}

#[test]
fn animation_time_wraps() {
    let mut c = AnimationClock::new(Some(1000));
    for _ in 0..5 {
        c.advance(300, 10);
    }
    assert_eq!(c.phase, 500 * FIXED_ONE as u128);
    assert_eq!(c.time(), FIXED_ONE / 2);
}

#[test]
fn animation_holds_for_single_timestep() {
    let mut c = AnimationClock::new(Some(1000));
    c.advance(300, 1);
    assert_eq!(c.phase, 0);
    assert_eq!(c.time(), 0);
}

#[test]
fn animation_default_duration() {
    let c = AnimationClock::new(None);
    assert_eq!(c.duration_ns, 10_000_000_000);
    let z = AnimationClock::new(Some(0));
    assert_eq!(z.duration_ns, 10_000_000_000);
}

#[test]
fn iso_camera_sees_its_box() {
    let b = cube(10);
    let p = OrthographicProjection::for_aabb(&b, 1024, 768);
    let cam = Camera::new_aabb_iso(b, p);
    assert!(cam.visible(&b));
    let far = Aabb::new(Point3 { x: 1000, y: 0, z: 0 }, Point3 { x: 1010, y: 10, z: 10 });
    assert!(!cam.visible(&far));
}

#[test]
fn iso_camera_in_tall_viewport_misses_corners() {
    let b = cube(10);
    let p = OrthographicProjection::for_aabb(&b, 600, 800);
    let cam = Camera::new_aabb_iso(b, p);
    assert!(!cam.visible(&b));
}

#[test]
fn controller_pans_only_while_dragging() {
    let mut c = CameraController::new(1, 5);
    c.process_mouse(10, 10);
    assert_eq!((c.drag_x, c.drag_y), (0, 0));
    c.right_mouse_pressed = true;
    c.process_mouse(10, -4);
    assert_eq!((c.drag_x, c.drag_y), (10, -4));
    c.right_mouse_pressed = false;
    c.left_mouse_pressed = true;
    c.process_keyboard(Key::Alt, true);
    c.process_mouse(1, 1);
    assert_eq!((c.drag_x, c.drag_y), (11, -3));
}

#[test]
fn controller_update_moves_and_clears() {
    let b = cube(10);
    let mut cam = Camera::new_aabb_iso(b, OrthographicProjection::for_aabb(&b, 100, 100));
    let mut c = CameraController::new(2, 5);
    c.right_mouse_pressed = true;
    c.process_mouse(1, 0);
    c.process_scroll(1);
    c.update_camera(&mut cam);
    assert_eq!((cam.center2.x, cam.center2.y, cam.center2.z), (8, 12, 10));
    assert_eq!(cam.zoom_pct, 95);
    assert_eq!((c.drag_x, c.drag_y, c.scroll), (0, 0, 0));
}

#[test]
fn viewer_new_uses_default_size_for_empty_window() {
    let v = WindowContext::new(0, 0, 8192, 1000, cube(10), 1, config(), false, black_to_white());
    assert_eq!((v.config.width, v.config.height), (800, 600));
    assert!(v.settings.gamma_correction);
    assert_eq!(v.settings.time, 0);
}

#[test]
fn viewer_new_clamps_to_texture_limit() {
    let v = WindowContext::new(5000, 300, 4096, 1000, cube(10), 1, config(), true, black_to_white());
    assert_eq!((v.config.width, v.config.height), (4096, 300));
    assert!(!v.settings.gamma_correction);
}

#[test]
fn resize_to_zero_keeps_config() {
    let mut v = viewer();
    assert!(!v.resize(0, 0, None));
    assert_eq!((v.config.width, v.config.height), (1024, 768));
    assert_eq!((v.camera.projection.viewport_w, v.camera.projection.viewport_h), (1024, 768));
}

#[test]
fn resize_updates_config_and_projection() {
    let mut v = viewer();
    let extent = v.camera.projection.extent_sq;
    assert!(v.resize(640, 480, Some(2000)));
    assert_eq!((v.config.width, v.config.height), (640, 480));
    assert_eq!((v.camera.projection.viewport_w, v.camera.projection.viewport_h), (640, 480));
    assert_eq!(v.camera.projection.extent_sq, extent);
    assert_eq!(v.scale_factor_milli, 2000);
    v.resize(10, 10, Some(0));
    assert_eq!(v.scale_factor_milli, 2000);
}

#[test]
fn update_rolls_back_camera_that_loses_box() {
    let mut v = viewer();
    let before = v.camera;
    v.handle_event(ViewerEvent::Mouse { button: MouseButton::Right, pressed: true });
    v.handle_event(ViewerEvent::MouseMotion { dx: 1000, dy: 0 });
    assert_eq!(v.handle_event(ViewerEvent::Redraw { dt_ns: 16_000_000 }), ViewerAction::Render);
    assert_eq!(v.camera, before);
    assert_eq!(v.controller.drag_x, 0);
}

#[test]
fn update_keeps_zoom_that_keeps_box() {
    let mut v = viewer();
    v.handle_event(ViewerEvent::Scroll { steps: 1 });
    v.update(0);
    assert_eq!(v.camera.zoom_pct, 95);
    v.handle_event(ViewerEvent::Scroll { steps: 1 });
    v.update(0);
    assert_eq!(v.camera.zoom_pct, 95);
}

#[test]
fn update_advances_animation_for_time_series() {
    let mut v = WindowContext::new(1024, 768, 8192, 1000, cube(10), 10, config(), true, black_to_white());
    v.update(5_000_000_000);
    assert_eq!(v.settings.time, FIXED_ONE / 2);
    v.update(5_000_000_000);
    assert_eq!(v.settings.time, 0);
}

#[test]
fn events_map_to_actions() {
    let mut v = viewer();
    assert_eq!(v.handle_event(ViewerEvent::CloseRequested), ViewerAction::Exit);
    assert_eq!(v.handle_event(ViewerEvent::Resized { width: 0, height: 0 }), ViewerAction::Continue);
    assert_eq!(
        v.handle_event(ViewerEvent::Resized { width: 300, height: 200 }),
        ViewerAction::Reconfigure
    );
    assert_eq!((v.config.width, v.config.height), (300, 200));
    v.handle_event(ViewerEvent::Key { key: Key::Other, toggles_ui: true, pressed: true });
    assert!(v.ui_visible);
    v.handle_event(ViewerEvent::Key { key: Key::Other, toggles_ui: true, pressed: false });
    assert!(!v.ui_visible);
    v.handle_event(ViewerEvent::AltChanged { pressed: true });
    assert!(v.controller.alt_pressed);
    v.handle_event(ViewerEvent::ScaleFactorChanged { milli: 1500 });
    assert_eq!(v.scale_factor_milli, 1500);
}

#[test]
fn prepare_frame_follows_window_and_gates_ssao() {
    let mut v = viewer();
    let plan = v.prepare_frame(1024, 768);
    assert!(!plan.resized);
    assert!(!plan.run_ssao);
    v.settings.render_iso = true;
    v.settings.ssao = true;
    let plan = v.prepare_frame(500, 400);
    assert!(plan.resized);
    assert!(plan.run_ssao);
    assert_eq!((v.config.width, v.config.height), (500, 400));
    v.settings.render_iso = false;
    assert!(!v.prepare_frame(500, 400).run_ssao);
}

#[test]
fn surface_errors_recover() {
    assert_eq!(recover_from(SurfaceError::Lost), Recovery::Reconfigure);
    assert_eq!(recover_from(SurfaceError::OutOfMemory), Recovery::Exit);
    assert_eq!(recover_from(SurfaceError::Timeout), Recovery::Skip);
    assert_eq!(recover_from(SurfaceError::Outdated), Recovery::Skip);
}

#[test]
fn composite_step_accumulates_front_to_back() {
    let half = composite_step(Accum::empty(), rgba(255, 0, 0, 255), FIXED_ONE / 2);
    assert_eq!(half, Accum { r: 32768, g: 0, b: 0, alpha: 32768 });
    let next = composite_step(half, rgba(0, 255, 0, 255), FIXED_ONE / 2);
    assert_eq!(next, Accum { r: 32768, g: 16384, b: 0, alpha: 49152 });
}

#[test]
fn march_stops_when_opaque() {
    let samples = vec![rgba(255, 255, 255, 255), rgba(0, 0, 0, 255)];
    let acc = march(&samples, FIXED_ONE);
    assert_eq!(acc, Accum { r: FIXED_ONE, g: FIXED_ONE, b: FIXED_ONE, alpha: FIXED_ONE });
}

#[test]
fn saturated_unit_volume_renders_white() {
    let v = Volume::load(vec![1; 8], 2, 2, 2, 1, 1, cube(1)).unwrap();
    let cmap = black_to_white();
    let mut samples = Vec::new();
    for z in 0..2 {
        let raw = v.sample_at_time(1, 1, z, 0, 0, FilterMode::Linear);
        let t = normalize(raw, 0, 1);
        samples.push(cmap.evaluate(t).round());
    }
    let acc = march(&samples, 100 * FIXED_ONE);
    let px = blend_over(acc, rgba(0, 0, 0, 255));
    assert_eq!(px, (FIXED_ONE, FIXED_ONE, FIXED_ONE));
}

#[test]
fn translucent_ray_shows_background() {
    let acc = march(&vec![rgba(255, 255, 255, 51)], FIXED_ONE);
    assert_eq!(acc.alpha, 13107);
    let px = blend_over(acc, rgba(0, 0, 255, 255));
    assert_eq!(px, (13107, 13107, 13107 + 52429));
}

#[test]
fn paused_update_keeps_time_set_from_outside() {
    let mut v = viewer();
    v.set_time(1000);
    v.update(16_000_000);
    assert_eq!(v.settings.time, 1000);
    let mut w = WindowContext::new(1024, 768, 8192, 1000, cube(10), 10, config(), true, black_to_white());
    w.clock.playing = false;
    w.set_time(FIXED_ONE / 4);
    w.update(5_000_000_000);
    assert_eq!(w.settings.time, FIXED_ONE / 4);
}

#[test]
fn playing_update_advances_from_time_set_from_outside() {
    let mut w = WindowContext::new(1024, 768, 8192, 1000, cube(10), 10, config(), true, black_to_white());
    w.set_time(FIXED_ONE / 4);
    w.update(5_000_000_000);
    assert_eq!(w.settings.time, 3 * FIXED_ONE / 4);
    w.update(5_000_000_000);
    assert_eq!(w.settings.time, FIXED_ONE / 4);
}

#[test]
fn left_drag_orbits_in_quarter_turns() {
    let mut v = viewer();
    v.handle_event(ViewerEvent::Mouse { button: MouseButton::Left, pressed: true });
    v.handle_event(ViewerEvent::MouseMotion { dx: 450, dy: 30 });
    assert_eq!((v.controller.orbit_x, v.controller.drag_x, v.controller.drag_y), (450, 0, 0));
    v.update(0);
    assert_eq!(v.camera.azimuth, 2);
    assert_eq!(v.controller.orbit_x, 50);
    v.handle_event(ViewerEvent::MouseMotion { dx: -300, dy: 0 });
    v.update(0);
    assert_eq!(v.camera.azimuth, 1);
    assert_eq!(v.controller.orbit_x, -50);
}

#[test]
fn orbited_camera_still_sees_box() {
    let b = cube(10);
    let mut cam = Camera::new_aabb_iso(b, OrthographicProjection::for_aabb(&b, 1024, 768));
    for k in 0..4u8 {
        cam.azimuth = k;
        assert!(cam.visible(&b));
    }
}

#[test]
fn controller_speeds_are_capped() {
    let c = CameraController::new(5000, 500);
    assert_eq!((c.pan_speed, c.zoom_step_pct), (1024, 100));
}

#[test]
fn context_keeps_background_and_baked_colormap() {
    let mut v = viewer();
    assert_eq!(v.background, rgba(0, 0, 0, 255));
    assert_eq!(v.cmap_texture.data.len(), 1024);
    assert_eq!(&v.cmap_texture.data[1020..1024], &[255, 255, 255, 255]);
    let red = ColorMap::new(vec![point(0, rgba(255, 0, 0, 255)), point(FIXED_ONE, rgba(255, 0, 0, 255))])
        .unwrap();
    v.set_colormap(red);
    assert_eq!(&v.cmap_texture.data[0..4], &[255, 0, 0, 255]);
    assert_eq!(v.cmap.points.len(), 2);
}

#[test]
fn new_uses_given_animation_duration() {
    let mut cfg = config();
    cfg.duration_ns = Some(4_000_000_000);
    let v = WindowContext::new(1024, 768, 8192, 1000, cube(10), 10, cfg, true, black_to_white());
    assert_eq!(v.clock.duration_ns, 4_000_000_000);
}

#[test]
fn colormap_midpoint_is_exact_for_odd_sums() {
    let m = ColorMap::new(vec![point(0, rgba(0, 1, 10, 255)), point(FIXED_ONE, rgba(255, 2, 11, 0))])
        .unwrap();
    let e = m.evaluate(FIXED_ONE / 2);
    assert_eq!(e.den, FIXED_ONE as u64);
    assert_eq!(2 * e.r, 255 * e.den);
    assert_eq!(2 * e.g, 3 * e.den);
    assert_eq!(2 * e.b, 21 * e.den);
    assert_eq!(2 * e.a, 255 * e.den);
    assert_eq!(e.round(), rgba(127, 1, 10, 127));
}

#[test]
fn colormap_exact_value_between_points() {
    let m = ColorMap::new(vec![
        point(0, rgba(0, 0, 0, 0)),
        point(3, rgba(10, 20, 30, 40)),
        point(FIXED_ONE, rgba(0, 0, 0, 0)),
    ])
    .unwrap();
    let e = m.evaluate(1);
    assert_eq!(e, ExactRgba { r: 10, g: 20, b: 30, a: 40, den: 3 });
    assert_eq!(m.evaluate(3).round(), rgba(10, 20, 30, 40));
}

#[test]
fn value_window_fills_unset_ends_from_data() {
    let v = Volume::load(vec![5, 2, 9, 4], 2, 2, 1, 1, 1, cube(1)).unwrap();
    assert_eq!(v.value_window(None, None), (2, 9));
    assert_eq!(v.value_window(Some(3), None), (3, 9));
    assert_eq!(v.value_window(None, Some(6)), (2, 6));
    assert_eq!(v.value_window(Some(1), Some(7)), (1, 7));
    assert_eq!(v.value_window(Some(12), None), (12, 12));
    assert_eq!(v.value_window(None, Some(1)), (1, 1));
}

#[test]
fn clipping_box_must_lie_inside_volume() {
    let mut v = viewer();
    let inside = Aabb::new(Point3 { x: 1, y: 1, z: 1 }, Point3 { x: 5, y: 5, z: 5 });
    let outside = Aabb::new(Point3 { x: 1, y: 1, z: 1 }, Point3 { x: 15, y: 5, z: 5 });
    assert!(!v.set_clipping(Some(outside)));
    assert_eq!(v.settings.clipping_aabb, None);
    assert!(v.set_clipping(Some(inside)));
    assert_eq!(v.settings.clipping_aabb, Some(inside));
    v.load_volume(cube(20), 1);
    assert_eq!(v.settings.clipping_aabb, None);
}

#[test]
fn new_landscape_viewer_sees_box() {
    let v = viewer();
    assert_eq!(v.camera.azimuth, 0);
    assert_eq!(v.scale_factor_milli, 1000);
    assert!(v.camera.visible(&v.aabb));
}
