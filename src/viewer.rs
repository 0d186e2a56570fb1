use vstd::prelude::*;
use crate::camera::{Camera, OrthographicProjection, MAX_VIEWPORT};
use crate::clock::{AnimationClock, FIXED_ONE};
use crate::cmap::{baked_spec, ColorMap, ColorMapTexture, Rgba8, COLORMAP_RESOLUTION};
use crate::controller::{CameraController, Key};
use crate::volume::{Aabb, FilterMode};

verus! {

/// Surface size used when the window reports an empty one.
pub const DEFAULT_WIDTH: u32 = 800;
pub const DEFAULT_HEIGHT: u32 = 600;

/// Ray-march step, in units of `FIXED_ONE` of the box: two thousandths.
pub const DEFAULT_STEP_SIZE: u32 = 131;

/// Pan speed and zoom step of a new viewer's controller.
pub const DEFAULT_PAN_SPEED: u32 = 1;
pub const DEFAULT_ZOOM_STEP: u32 = 5;

/// Per-frame rendering configuration. Fractions (`time`, `step_size`,
/// `distance_scale`) are in units of `FIXED_ONE`; `vmin` and `vmax` are in
/// sample units.
#[derive(Clone, Copy, Debug, PartialEq, Eq, Structural)]
pub struct RenderSettings {
    pub clipping_aabb: Option<Aabb>,
    pub time: u32,
    pub step_size: u32,
    pub spatial_filter: FilterMode,
    pub temporal_filter: FilterMode,
    pub distance_scale: u32,
    pub vmin: Option<u16>,
    pub vmax: Option<u16>,
    pub gamma_correction: bool,
    pub render_iso: bool,
    pub ssao: bool,
}

pub open spec fn range_ok(vmin: Option<u16>, vmax: Option<u16>) -> bool {
    match (vmin, vmax) {
        (Some(lo), Some(hi)) => lo <= hi,
        _ => true,
    }
}

impl RenderSettings {
    pub open spec fn wf(&self) -> bool {
        &&& self.time < FIXED_ONE
        &&& self.step_size > 0
        &&& self.distance_scale > 0
        &&& range_ok(self.vmin, self.vmax)
    }
}

/// What the embedding application asks of a new viewer.
#[derive(Clone, Copy, Debug, PartialEq, Eq, Structural)]
pub struct RenderConfig {
    pub no_vsync: bool,
    pub show_colormap_editor: bool,
    pub show_volume_info: bool,
    pub vmin: Option<u16>,
    pub vmax: Option<u16>,
    pub distance_scale: u32,
    pub duration_ns: Option<u64>,
    pub background: Rgba8,
}

/// Size of the presentation surface, in pixels.
#[derive(Clone, Copy, Debug, PartialEq, Eq, Structural)]
pub struct SurfaceConfig {
    pub width: u32,
    pub height: u32,
}

/// Mouse buttons the viewer reacts to.
#[derive(Clone, Copy, Debug, PartialEq, Eq, Structural)]
pub enum MouseButton {
    Left,
    Right,
    Other,
}

/// Input and window events, already reduced to plain values.
#[derive(Clone, Copy, Debug, PartialEq, Eq, Structural)]
pub enum ViewerEvent {
    Resized { width: u32, height: u32 },
    ScaleFactorChanged { milli: u32 },
    CloseRequested,
    AltChanged { pressed: bool },
    Key { key: Key, toggles_ui: bool, pressed: bool },
    Scroll { steps: i32 },
    Mouse { button: MouseButton, pressed: bool },
    MouseMotion { dx: i32, dy: i32 },
    Redraw { dt_ns: u64 },
}

/// What the event loop does after an event.
#[derive(Clone, Copy, Debug, PartialEq, Eq, Structural)]
pub enum ViewerAction {
    /// Nothing beyond the state change.
    Continue,
    /// Reconfigure the surface and reallocate the screen-sized textures.
    Reconfigure,
    /// Draw and present a frame.
    Render,
    /// Leave the event loop.
    Exit,
}

/// Errors the presentation surface reports when a frame is acquired.
#[derive(Clone, Copy, Debug, PartialEq, Eq, Structural)]
pub enum SurfaceError {
    Lost,
    Outdated,
    Timeout,
    OutOfMemory,
}

/// How the loop recovers from a surface error.
#[derive(Clone, Copy, Debug, PartialEq, Eq, Structural)]
pub enum Recovery {
    /// Reconfigure the surface at the current size and retry next frame.
    Reconfigure,
    /// Skip the frame; the next one resolves it.
    Skip,
    /// Unrecoverable: stop.
    Exit,
}

/// The per-frame decisions of `prepare_frame`.
#[derive(Clone, Copy, Debug, PartialEq, Eq, Structural)]
pub struct FramePlan {
    /// The surface was resized to the window first.
    pub resized: bool,
    /// The ambient-occlusion pass runs after the volume pass.
    pub run_ssao: bool,
}

/// The viewer's state between frames: surface size, camera and its
/// controller, render settings, animation clock, the box and timestep
/// count of the loaded volume, the background color, and the active
/// colormap with its baked texture.
pub struct WindowContext {
    pub config: SurfaceConfig,
    pub max_size: u32,
    pub scale_factor_milli: u32,
    pub controller: CameraController,
    pub camera: Camera,
    pub aabb: Aabb,
    pub timesteps: u32,
    pub settings: RenderSettings,
    pub clock: AnimationClock,
    pub ui_visible: bool,
    pub colormap_editor_visible: bool,
    pub volume_info_visible: bool,
    pub no_vsync: bool,
    pub background: Rgba8,
    pub cmap: ColorMap,
    pub cmap_texture: ColorMapTexture,
}

/// A clipping box, if any, is a valid box inside the volume's box.
pub open spec fn clip_within(clip: Option<Aabb>, aabb: Aabb) -> bool {
    match clip {
        Some(c) => c.valid() && aabb.min.x <= c.min.x && c.max.x <= aabb.max.x && aabb.min.y
            <= c.min.y && c.max.y <= aabb.max.y && aabb.min.z <= c.min.z && c.max.z <= aabb.max.z,
        None => true,
    }
}

pub fn is_clip_within(clip: Option<Aabb>, aabb: Aabb) -> (r: bool)
    ensures
        r == clip_within(clip, aabb),
{
    match clip {
        Some(c) => c.is_valid() && aabb.min.x <= c.min.x && c.max.x <= aabb.max.x && aabb.min.y
            <= c.min.y && c.max.y <= aabb.max.y && aabb.min.z <= c.min.z && c.max.z <= aabb.max.z,
        None => true,
    }
}

pub open spec fn min_u32(a: int, b: int) -> int {
    if a < b { a } else { b }
}

pub open spec fn surface_recovery(e: SurfaceError) -> Recovery {
    match e {
        SurfaceError::Lost => Recovery::Reconfigure,
        SurfaceError::OutOfMemory => Recovery::Exit,
        _ => Recovery::Skip,
    }
}

/// How the loop recovers from a surface error: a lost surface is
/// reconfigured, running out of memory stops, anything else skips a frame.
pub fn recover_from(e: SurfaceError) -> (r: Recovery)
    ensures
        r == surface_recovery(e),
{
    match e {
        SurfaceError::Lost => Recovery::Reconfigure,
        SurfaceError::OutOfMemory => Recovery::Exit,
        _ => Recovery::Skip,
    }
}

impl WindowContext {
    pub open spec fn wf(&self) -> bool {
        &&& 0 < self.max_size <= MAX_VIEWPORT
        &&& 0 < self.config.width <= self.max_size
        &&& 0 < self.config.height <= self.max_size
        &&& self.camera.wf()
        &&& self.camera.projection.viewport_w == self.config.width
        &&& self.camera.projection.viewport_h == self.config.height
        &&& self.controller.wf()
        &&& self.aabb.valid()
        &&& self.timesteps > 0
        &&& self.settings.wf()
        &&& clip_within(self.settings.clipping_aabb, self.aabb)
        &&& self.clock.wf()
        &&& self.settings.time == self.clock.time_spec()
        &&& self.scale_factor_milli > 0
        &&& self.cmap.wf()
        &&& self.cmap_texture.resolution == COLORMAP_RESOLUTION
        &&& self.cmap_texture.data@ == baked_spec(self.cmap.points@, COLORMAP_RESOLUTION as int)
    }

    /// What neither the frame loop nor resizing touches: limits, panel
    /// flags, background and colormap.
    pub open spec fn keeps_presentation(&self, other: &WindowContext) -> bool {
        &&& other.max_size == self.max_size
        &&& other.ui_visible == self.ui_visible
        &&& other.colormap_editor_visible == self.colormap_editor_visible
        &&& other.volume_info_visible == self.volume_info_visible
        &&& other.no_vsync == self.no_vsync
        &&& other.background == self.background
        &&& other.cmap.points@ == self.cmap.points@
        &&& other.cmap_texture.resolution == self.cmap_texture.resolution
        &&& other.cmap_texture.data@ == self.cmap_texture.data@
    }

    /// Everything but the controller and the panel toggle is as in `self`:
    /// what an input event leaves alone.
    pub open spec fn keeps_view(&self, after: &WindowContext) -> bool {
        &&& after.config == self.config
        &&& after.scale_factor_milli == self.scale_factor_milli
        &&& after.camera == self.camera
        &&& after.aabb == self.aabb
        &&& after.timesteps == self.timesteps
        &&& after.settings == self.settings
        &&& after.clock == self.clock
        &&& after.max_size == self.max_size
        &&& after.colormap_editor_visible == self.colormap_editor_visible
        &&& after.volume_info_visible == self.volume_info_visible
        &&& after.no_vsync == self.no_vsync
        &&& after.background == self.background
        &&& after.cmap.points@ == self.cmap.points@
        &&& after.cmap_texture.resolution == self.cmap_texture.resolution
        &&& after.cmap_texture.data@ == self.cmap_texture.data@
    }

    /// `after` is `self` resized to `width` by `height` (ignored when
    /// empty, clamped to the largest texture side otherwise), with the
    /// projection following the surface and a positive scale factor kept.
    pub open spec fn resize_post(
        &self,
        after: &WindowContext,
        width: int,
        height: int,
        scale_factor_milli: Option<u32>,
    ) -> bool {
        &&& (width > 0 && height > 0) ==> after.config == (SurfaceConfig {
            width: min_u32(width, self.max_size as int) as u32,
            height: min_u32(height, self.max_size as int) as u32,
        })
        &&& !(width > 0 && height > 0) ==> after.config == self.config
        &&& after.camera == (Camera {
            projection: OrthographicProjection {
                viewport_w: after.config.width,
                viewport_h: after.config.height,
                ..self.camera.projection
            },
            ..self.camera
        })
        &&& after.scale_factor_milli == match scale_factor_milli {
            Some(s) => if s > 0 { s } else { self.scale_factor_milli },
            None => self.scale_factor_milli,
        }
        &&& after.settings == self.settings
        &&& after.clock == self.clock
        &&& after.controller == self.controller
        &&& after.aabb == self.aabb
        &&& after.timesteps == self.timesteps
        &&& self.keeps_presentation(after)
    }

    /// Whether the animation moves this frame.
    pub open spec fn animating(&self) -> bool {
        self.clock.playing && self.timesteps > 1
    }

    /// `after` is `self` one frame of `dt_ns` nanoseconds later: the
    /// guarded camera, the controller's input consumed, and, when the
    /// animation moves, the clock and the render time advanced together;
    /// everything else as it was.
    pub open spec fn update_post(&self, after: &WindowContext, dt_ns: int) -> bool {
        &&& after.camera == self.guarded_camera()
        &&& after.controller == (CameraController {
            drag_x: 0,
            drag_y: 0,
            scroll: 0,
            orbit_x: self.controller.orbit_rest() as i32,
            ..self.controller
        })
        &&& after.clock == (AnimationClock {
            phase: if self.animating() {
                ((self.clock.phase + dt_ns * FIXED_ONE) % self.clock.period()) as u128
            } else {
                self.clock.phase
            },
            ..self.clock
        })
        &&& after.settings == (RenderSettings { time: after.clock.time_spec() as u32, ..self.settings })
        &&& !self.animating() ==> after.settings == self.settings
        &&& after.config == self.config
        &&& after.aabb == self.aabb
        &&& after.timesteps == self.timesteps
        &&& after.scale_factor_milli == self.scale_factor_milli
        &&& self.keeps_presentation(after)
    }

    /// Sets up a viewer for a window of the given size (800 by 600 when it
    /// reports an empty size), clamped to the device's largest texture
    /// side, framing the volume's box with an isometric camera.
    pub fn new(
        window_width: u32,
        window_height: u32,
        max_texture_size: u32,
        scale_factor_milli: u32,
        aabb: Aabb,
        timesteps: u32,
        config: RenderConfig,
        surface_is_srgb: bool,
        cmap: ColorMap,
    ) -> (r: WindowContext)
        requires
            cmap.wf(),
            0 < max_texture_size,
            scale_factor_milli > 0,
            aabb.valid(),
            timesteps > 0,
            config.distance_scale > 0,
            range_ok(config.vmin, config.vmax),
        ensures
            r.wf(),
            r.max_size == min_u32(max_texture_size as int, MAX_VIEWPORT as int),
            window_width > 0 && window_height > 0 ==> r.config == (SurfaceConfig {
                width: min_u32(window_width as int, r.max_size as int) as u32,
                height: min_u32(window_height as int, r.max_size as int) as u32,
            }),
            window_width == 0 || window_height == 0 ==> r.config == (SurfaceConfig {
                width: min_u32(DEFAULT_WIDTH as int, r.max_size as int) as u32,
                height: min_u32(DEFAULT_HEIGHT as int, r.max_size as int) as u32,
            }),
            r.camera.center2.x == aabb.min.x + aabb.max.x,
            r.camera.center2.y == aabb.min.y + aabb.max.y,
            r.camera.center2.z == aabb.min.z + aabb.max.z,
            r.camera.zoom_pct == 100,
            r.camera.projection.extent_sq == aabb.diag_sq_spec(),
            r.aabb == aabb,
            r.timesteps == timesteps,
            r.settings == (RenderSettings {
                clipping_aabb: None,
                time: 0,
                step_size: DEFAULT_STEP_SIZE,
                spatial_filter: FilterMode::Nearest,
                temporal_filter: FilterMode::Linear,
                distance_scale: config.distance_scale,
                vmin: config.vmin,
                vmax: config.vmax,
                gamma_correction: !surface_is_srgb,
                render_iso: false,
                ssao: false,
            }),
            r.clock.phase == 0,
            r.clock.playing,
            r.clock.duration_ns == match config.duration_ns {
                Some(d) => if d > 0 { d } else { crate::clock::DEFAULT_ANIMATION_NANOS },
                None => crate::clock::DEFAULT_ANIMATION_NANOS,
            },
            r.controller == CameraController::new_spec(DEFAULT_PAN_SPEED, DEFAULT_ZOOM_STEP),
            r.background == config.background,
            r.cmap.points@ == cmap.points@,
            r.scale_factor_milli == scale_factor_milli,
            r.camera.azimuth == 0,
            r.config.width >= r.config.height ==> r.camera.visible_spec(aabb),
            r.ui_visible,
            r.colormap_editor_visible == config.show_colormap_editor,
            r.volume_info_visible == config.show_volume_info,
            r.no_vsync == config.no_vsync,
    {
        let max_size = if max_texture_size < MAX_VIEWPORT { max_texture_size } else { MAX_VIEWPORT };
        let (w0, h0) = if window_width == 0 || window_height == 0 {
            (DEFAULT_WIDTH, DEFAULT_HEIGHT)
        } else {
            (window_width, window_height)
        };
        let width = if w0 < max_size { w0 } else { max_size };
        let height = if h0 < max_size { h0 } else { max_size };
        let projection = OrthographicProjection::for_aabb(&aabb, width, height);
        let camera = Camera::new_aabb_iso(aabb, projection);
        proof {
            if width >= height {
                crate::camera::lemma_iso_camera_sees_aabb(aabb, projection, camera);
            }
        }
        let settings = RenderSettings {
            clipping_aabb: None,
            time: 0,
            step_size: DEFAULT_STEP_SIZE,
            spatial_filter: FilterMode::Nearest,
            temporal_filter: FilterMode::Linear,
            distance_scale: config.distance_scale,
            vmin: config.vmin,
            vmax: config.vmax,
            gamma_correction: !surface_is_srgb,
            render_iso: false,
            ssao: false,
        };
        WindowContext {
            config: SurfaceConfig { width, height },
            max_size,
            scale_factor_milli,
            controller: CameraController::new(DEFAULT_PAN_SPEED, DEFAULT_ZOOM_STEP),
            camera,
            aabb,
            timesteps,
            settings,
            clock: AnimationClock::new(config.duration_ns),
            ui_visible: true,
            colormap_editor_visible: config.show_colormap_editor,
            volume_info_visible: config.show_volume_info,
            no_vsync: config.no_vsync,
            background: config.background,
            cmap_texture: ColorMapTexture::new(&cmap, COLORMAP_RESOLUTION),
            cmap,
        }
    }

    /// Follows a new window size: an empty size changes nothing; otherwise
    /// the surface and the projection's aspect ratio take the size, clamped
    /// to the largest texture side, and the vertical extent is kept. A
    /// positive scale factor is kept. Returns whether the surface has to be
    /// reconfigured.
    pub fn resize(&mut self, width: u32, height: u32, scale_factor_milli: Option<u32>) -> (r: bool)
        requires
            old(self).wf(),
        ensures
            final(self).wf(),
            r == (width > 0 && height > 0),
            old(self).resize_post(final(self), width as int, height as int, scale_factor_milli),
    {
        let resized = width > 0 && height > 0;
        if resized {
            let w = if width < self.max_size { width } else { self.max_size };
            let h = if height < self.max_size { height } else { self.max_size };
            self.config = SurfaceConfig { width: w, height: h };
            self.camera.projection.resize(w, h);
        }
        match scale_factor_milli {
            Some(s) => {
                if s > 0 {
                    self.scale_factor_milli = s;
                }
            },
            None => {},
        }
        resized
    }

    /// Camera after one controller update: the moved camera if it still
    /// sees every corner of the box, else the camera as it was.
    pub open spec fn guarded_camera(&self) -> Camera {
        let moved = self.controller.moved_camera(self.camera);
        if moved.visible_spec(self.aabb) {
            moved
        } else {
            self.camera
        }
    }

    /// Advances one frame of `dt_ns` nanoseconds: applies the pending
    /// input to the camera, undoing it if the box would leave the view,
    /// and moves the animation on when it plays and the volume has more
    /// than one timestep.
    pub fn update(&mut self, dt_ns: u64)
        requires
            old(self).wf(),
        ensures
            final(self).wf(),
            old(self).update_post(final(self), dt_ns as int),
    {
        let old_camera = self.camera;
        self.controller.update_camera(&mut self.camera);
        if !self.camera.visible(&self.aabb) {
            self.camera = old_camera;
        }
        if self.clock.playing && self.timesteps > 1 {
            self.clock.advance(dt_ns, self.timesteps);
            self.settings.time = self.clock.time();
        }
    }

    /// Sets the animation time, in `[0, FIXED_ONE)`; the clock follows.
    pub fn set_time(&mut self, time: u32)
        requires
            old(self).wf(),
            time < FIXED_ONE,
        ensures
            final(self).wf(),
            final(self).settings == (RenderSettings { time, ..old(self).settings }),
            final(self).clock.phase == time * old(self).clock.duration_ns,
            final(self).clock.duration_ns == old(self).clock.duration_ns,
            final(self).clock.playing == old(self).clock.playing,
            final(self).camera == old(self).camera,
            final(self).config == old(self).config,
            final(self).controller == old(self).controller,
            final(self).aabb == old(self).aabb,
            final(self).timesteps == old(self).timesteps,
            final(self).scale_factor_milli == old(self).scale_factor_milli,
            old(self).keeps_presentation(final(self)),
    {
        self.clock.set_time(time);
        self.settings.time = time;
    }

    /// Makes `cmap` the active colormap and bakes its texture anew.
    pub fn set_colormap(&mut self, cmap: ColorMap)
        requires
            old(self).wf(),
            cmap.wf(),
        ensures
            final(self).wf(),
            final(self).cmap.points@ == cmap.points@,
            final(self).cmap_texture.data@ == baked_spec(cmap.points@, COLORMAP_RESOLUTION as int),
            final(self).cmap_texture.resolution == COLORMAP_RESOLUTION,
            final(self).settings == old(self).settings,
            final(self).camera == old(self).camera,
            final(self).config == old(self).config,
            final(self).controller == old(self).controller,
            final(self).clock == old(self).clock,
            final(self).aabb == old(self).aabb,
            final(self).timesteps == old(self).timesteps,
            final(self).scale_factor_milli == old(self).scale_factor_milli,
            final(self).max_size == old(self).max_size,
            final(self).ui_visible == old(self).ui_visible,
            final(self).colormap_editor_visible == old(self).colormap_editor_visible,
            final(self).volume_info_visible == old(self).volume_info_visible,
            final(self).no_vsync == old(self).no_vsync,
            final(self).background == old(self).background,
    {
        self.cmap_texture = ColorMapTexture::new(&cmap, COLORMAP_RESOLUTION);
        self.cmap = cmap;
    }

    /// Sets the clipping box if it is a valid box inside the volume's box
    /// (or is none); otherwise changes nothing. Returns whether it was set.
    pub fn set_clipping(&mut self, clip: Option<Aabb>) -> (r: bool)
        requires
            old(self).wf(),
        ensures
            final(self).wf(),
            r == clip_within(clip, old(self).aabb),
            r ==> final(self).settings == (RenderSettings { clipping_aabb: clip, ..old(self).settings }),
            !r ==> final(self).settings == old(self).settings,
            final(self).camera == old(self).camera,
            final(self).clock == old(self).clock,
            final(self).controller == old(self).controller,
            final(self).config == old(self).config,
            final(self).aabb == old(self).aabb,
            old(self).keeps_presentation(final(self)),
    {
        let ok = is_clip_within(clip, self.aabb);
        if ok {
            self.settings.clipping_aabb = clip;
        }
        ok
    }

    /// Takes the box and timestep count of a newly loaded volume; the
    /// camera keeps its place and its projection follows the surface. The
    /// clipping box, which belonged to the old box, is dropped.
    pub fn load_volume(&mut self, aabb: Aabb, timesteps: u32)
        requires
            old(self).wf(),
            aabb.valid(),
            timesteps > 0,
        ensures
            final(self).wf(),
            final(self).aabb == aabb,
            final(self).timesteps == timesteps,
            final(self).camera == old(self).camera,
            final(self).config == old(self).config,
            final(self).settings == (RenderSettings { clipping_aabb: None, ..old(self).settings }),
            final(self).controller == old(self).controller,
            final(self).clock == old(self).clock,
            final(self).scale_factor_milli == old(self).scale_factor_milli,
            old(self).keeps_presentation(final(self)),
    {
        self.aabb = aabb;
        self.timesteps = timesteps;
        self.settings.clipping_aabb = None;
        let (w, h) = (self.config.width, self.config.height);
        self.camera.projection.resize(w, h);
    }

    /// Decisions made before drawing a frame: follow the window's size if
    /// the surface lags behind it, and run the ambient-occlusion pass only
    /// for iso-surfaces with it switched on.
    pub fn prepare_frame(&mut self, window_width: u32, window_height: u32) -> (r: FramePlan)
        requires
            old(self).wf(),
        ensures
            final(self).wf(),
            r.resized == ((window_width != old(self).config.width
                || window_height != old(self).config.height) && window_width > 0
                && window_height > 0),
            (window_width != old(self).config.width || window_height != old(self).config.height)
                ==> old(self).resize_post(final(self), window_width as int, window_height as int, None),
            !(window_width != old(self).config.width || window_height != old(self).config.height)
                ==> old(self).resize_post(final(self), 0, 0, None),
            r.run_ssao == (old(self).settings.render_iso && old(self).settings.ssao),
    {
        let mut resized = false;
        if window_width != self.config.width || window_height != self.config.height {
            resized = self.resize(window_width, window_height, None);
        }
        FramePlan { resized, run_ssao: self.settings.render_iso && self.settings.ssao }
    }

    /// Reacts to one event of the window's event loop.
    #[verifier::rlimit(50)]
    pub fn handle_event(&mut self, event: ViewerEvent) -> (r: ViewerAction)
        requires
            old(self).wf(),
        ensures
            final(self).wf(),
            match event {
                ViewerEvent::Resized { width, height } => r == (if width > 0 && height > 0 {
                    ViewerAction::Reconfigure
                } else {
                    ViewerAction::Continue
                }) && old(self).resize_post(final(self), width as int, height as int, None),
                ViewerEvent::ScaleFactorChanged { milli } => r == ViewerAction::Continue
                    && old(self).resize_post(final(self), 0, 0, Some(milli)),
                ViewerEvent::CloseRequested => r == ViewerAction::Exit && old(self).keeps_view(
                    final(self),
                ) && final(self).ui_visible == old(self).ui_visible && final(self).controller
                    == old(self).controller,
                ViewerEvent::AltChanged { pressed } => r == ViewerAction::Continue && old(self).keeps_view(final(self)) && final(self).ui_visible == old(self).ui_visible
                    && final(self).controller == (CameraController {
                    alt_pressed: pressed,
                    ..old(self).controller
                }),
                ViewerEvent::Key { key, toggles_ui, pressed } => r == ViewerAction::Continue
                    && old(self).keeps_view(final(self)) && final(self).ui_visible == (if toggles_ui
                    && !pressed {
                    !old(self).ui_visible
                } else {
                    old(self).ui_visible
                }) && final(self).controller == (if key == Key::Alt {
                    CameraController { alt_pressed: pressed, ..old(self).controller }
                } else {
                    old(self).controller
                }),
                ViewerEvent::Scroll { steps } => r == ViewerAction::Continue && old(self).keeps_view(final(self)) && final(self).ui_visible == old(self).ui_visible
                    && final(self).controller == (CameraController {
                    scroll: crate::controller::sat_add_i32(
                        old(self).controller.scroll as int,
                        steps as int,
                    ) as i32,
                    ..old(self).controller
                }),
                ViewerEvent::Mouse { button, pressed } => r == ViewerAction::Continue && old(self).keeps_view(final(self)) && final(self).ui_visible == old(self).ui_visible
                    && final(self).controller == (CameraController {
                    left_mouse_pressed: if button == MouseButton::Left {
                        pressed
                    } else {
                        old(self).controller.left_mouse_pressed
                    },
                    right_mouse_pressed: if button == MouseButton::Right {
                        pressed
                    } else {
                        old(self).controller.right_mouse_pressed
                    },
                    ..old(self).controller
                }),
                ViewerEvent::MouseMotion { dx, dy } => r == ViewerAction::Continue && old(self).keeps_view(final(self)) && final(self).ui_visible == old(self).ui_visible
                    && final(self).controller == (CameraController {
                    drag_x: final(self).controller.drag_x,
                    drag_y: final(self).controller.drag_y,
                    orbit_x: final(self).controller.orbit_x,
                    ..old(self).controller
                }) && (old(self).controller.panning() ==> final(self).controller.drag_x
                    == crate::controller::sat_add_i32(old(self).controller.drag_x as int, dx as int)
                    && final(self).controller.drag_y == crate::controller::sat_add_i32(
                    old(self).controller.drag_y as int,
                    dy as int,
                )) && (!old(self).controller.panning() ==> final(self).controller.drag_x
                    == old(self).controller.drag_x && final(self).controller.drag_y == old(self).controller.drag_y) && (old(self).controller.orbiting() ==> final(self).controller.orbit_x == crate::controller::sat_add_i32(
                    old(self).controller.orbit_x as int,
                    dx as int,
                )) && (!old(self).controller.orbiting() ==> final(self).controller.orbit_x
                    == old(self).controller.orbit_x),
                ViewerEvent::Redraw { dt_ns } => r == ViewerAction::Render && old(self).update_post(
                    final(self),
                    dt_ns as int,
                ),
            },
    {
        match event {
            ViewerEvent::Resized { width, height } => {
                if self.resize(width, height, None) {
                    ViewerAction::Reconfigure
                } else {
                    ViewerAction::Continue
                }
            },
            ViewerEvent::ScaleFactorChanged { milli } => {
                self.resize(0, 0, Some(milli));
                ViewerAction::Continue
            },
            ViewerEvent::CloseRequested => ViewerAction::Exit,
            ViewerEvent::AltChanged { pressed } => {
                self.controller.alt_pressed = pressed;
                ViewerAction::Continue
            },
            ViewerEvent::Key { key, toggles_ui, pressed } => {
                self.controller.process_keyboard(key, pressed);
                if toggles_ui && !pressed {
                    self.ui_visible = !self.ui_visible;
                }
                ViewerAction::Continue
            },
            ViewerEvent::Scroll { steps } => {
                self.controller.process_scroll(steps);
                ViewerAction::Continue
            },
            ViewerEvent::Mouse { button, pressed } => {
                match button {
                    MouseButton::Left => self.controller.left_mouse_pressed = pressed,
                    MouseButton::Right => self.controller.right_mouse_pressed = pressed,
                    MouseButton::Other => {},
                }
                ViewerAction::Continue
            },
            ViewerEvent::MouseMotion { dx, dy } => {
                self.controller.process_mouse(dx, dy);
                ViewerAction::Continue
            },
            ViewerEvent::Redraw { dt_ns } => {
                self.update(dt_ns);
                ViewerAction::Render
            },
        }
    }
}

/// The visibility guard keeps the box in view: after an update the camera
/// sees every corner of the box if it did before, and an update whose
/// moved camera would lose a corner leaves the camera exactly as it was.
pub proof fn lemma_update_keeps_box_visible(before: WindowContext, after: WindowContext, dt_ns: int)
    requires
        before.wf(),
        before.update_post(&after, dt_ns),
    ensures
        before.camera.visible_spec(before.aabb) ==> after.camera.visible_spec(before.aabb),
        !before.controller.moved_camera(before.camera).visible_spec(before.aabb) ==> after.camera
            == before.camera,
{
}

} // verus!
