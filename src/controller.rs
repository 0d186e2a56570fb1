use vstd::prelude::*;
use crate::camera::{Camera, Point3L, AZIMUTH_STEPS, CENTER_LIMIT, MAX_ZOOM_PCT, MIN_ZOOM_PCT};

verus! {

/// Largest pan speed, in doubled world units per pixel of drag.
pub const MAX_PAN_SPEED: u32 = 1024;

/// Largest zoom change, in percent, per scroll step.
pub const MAX_ZOOM_STEP: u32 = 100;

/// Horizontal drag, in pixels, that orbits the camera by one quarter turn.
pub const ORBIT_STEP_PIXELS: u32 = 200;

/// Keys the controller reacts to.
#[derive(Clone, Copy, Debug, PartialEq, Eq, Structural)]
pub enum Key {
    Alt,
    Other,
}

/// Turns pointer and keyboard input into camera motion: a drag with the
/// right button, or with the left button while alt is held, pans; a drag
/// with the left button alone orbits; scrolling zooms. Input is accumulated
/// until the next `update_camera`.
#[derive(Clone, Copy, Debug, PartialEq, Eq, Structural)]
pub struct CameraController {
    pub left_mouse_pressed: bool,
    pub right_mouse_pressed: bool,
    pub alt_pressed: bool,
    pub drag_x: i32,
    pub drag_y: i32,
    pub orbit_x: i32,
    pub scroll: i32,
    pub pan_speed: u32,
    pub zoom_step_pct: u32,
}

pub open spec fn sat_add_i32(a: int, b: int) -> int {
    if a + b > i32::MAX {
        i32::MAX as int
    } else if a + b < i32::MIN {
        i32::MIN as int
    } else {
        a + b
    }
}

pub open spec fn clamp_int(v: int, lo: int, hi: int) -> int {
    if v < lo {
        lo
    } else if v > hi {
        hi
    } else {
        v
    }
}

fn sat_add(a: i32, b: i32) -> (r: i32)
    ensures
        r == sat_add_i32(a as int, b as int),
{
    let s: i64 = a as i64 + b as i64;
    if s > i32::MAX as i64 {
        i32::MAX
    } else if s < i32::MIN as i64 {
        i32::MIN
    } else {
        s as i32
    }
}

fn clamp_i64(v: i64, lo: i64, hi: i64) -> (r: i64)
    requires
        lo <= hi,
    ensures
        r == clamp_int(v as int, lo as int, hi as int),
{
    if v < lo {
        lo
    } else if v > hi {
        hi
    } else {
        v
    }
}

impl CameraController {
    pub open spec fn wf(&self) -> bool {
        self.pan_speed <= MAX_PAN_SPEED && self.zoom_step_pct <= MAX_ZOOM_STEP
    }

    /// Whether pointer motion currently pans.
    pub open spec fn panning(&self) -> bool {
        self.right_mouse_pressed || (self.left_mouse_pressed && self.alt_pressed)
    }

    /// Whether pointer motion currently orbits.
    pub open spec fn orbiting(&self) -> bool {
        !self.right_mouse_pressed && self.left_mouse_pressed && !self.alt_pressed
    }

    pub open spec fn new_spec(pan_speed: u32, zoom_step_pct: u32) -> CameraController {
        CameraController {
            left_mouse_pressed: false,
            right_mouse_pressed: false,
            alt_pressed: false,
            drag_x: 0,
            drag_y: 0,
            orbit_x: 0,
            scroll: 0,
            pan_speed: clamp_int(pan_speed as int, 0, MAX_PAN_SPEED as int) as u32,
            zoom_step_pct: clamp_int(zoom_step_pct as int, 0, MAX_ZOOM_STEP as int) as u32,
        }
    }

    /// A controller with no input pending; speeds above their bounds are
    /// capped at the bounds.
    pub fn new(pan_speed: u32, zoom_step_pct: u32) -> (r: CameraController)
        ensures
            r.wf(),
            r.pan_speed == clamp_int(pan_speed as int, 0, MAX_PAN_SPEED as int),
            r.zoom_step_pct == clamp_int(zoom_step_pct as int, 0, MAX_ZOOM_STEP as int),
            !r.left_mouse_pressed && !r.right_mouse_pressed && !r.alt_pressed,
            r.drag_x == 0 && r.drag_y == 0 && r.orbit_x == 0 && r.scroll == 0,
            r == Self::new_spec(pan_speed, zoom_step_pct),
    {
        CameraController {
            left_mouse_pressed: false,
            right_mouse_pressed: false,
            alt_pressed: false,
            drag_x: 0,
            drag_y: 0,
            orbit_x: 0,
            scroll: 0,
            pan_speed: if pan_speed > MAX_PAN_SPEED { MAX_PAN_SPEED } else { pan_speed },
            zoom_step_pct: if zoom_step_pct > MAX_ZOOM_STEP { MAX_ZOOM_STEP } else { zoom_step_pct },
        }
    }

    pub fn process_keyboard(&mut self, key: Key, pressed: bool)
        ensures
            final(self).alt_pressed == if key == Key::Alt { pressed } else { old(self).alt_pressed },
            *final(self) == (CameraController { alt_pressed: final(self).alt_pressed, ..*old(self) }),
    {
        if key == Key::Alt {
            self.alt_pressed = pressed;
        }
    }

    /// Records pointer motion: it pans while panning, orbits (horizontal
    /// motion only) while orbiting, and is ignored otherwise.
    pub fn process_mouse(&mut self, dx: i32, dy: i32)
        ensures
            old(self).panning() ==> final(self).drag_x == sat_add_i32(old(self).drag_x as int, dx as int)
                && final(self).drag_y == sat_add_i32(old(self).drag_y as int, dy as int),
            !old(self).panning() ==> final(self).drag_x == old(self).drag_x && final(self).drag_y
                == old(self).drag_y,
            old(self).orbiting() ==> final(self).orbit_x == sat_add_i32(old(self).orbit_x as int, dx as int),
            !old(self).orbiting() ==> final(self).orbit_x == old(self).orbit_x,
            *final(self) == (CameraController {
                drag_x: final(self).drag_x,
                drag_y: final(self).drag_y,
                orbit_x: final(self).orbit_x,
                ..*old(self)
            }),
    {
        if self.right_mouse_pressed || (self.left_mouse_pressed && self.alt_pressed) {
            self.drag_x = sat_add(self.drag_x, dx);
            self.drag_y = sat_add(self.drag_y, dy);
        } else if self.left_mouse_pressed {
            self.orbit_x = sat_add(self.orbit_x, dx);
        }
    }

    /// Quarter turns the accumulated orbit drag makes (toward zero), and the
    /// drag left over.
    pub open spec fn orbit_turns(&self) -> int {
        if self.orbit_x >= 0 {
            self.orbit_x as int / ORBIT_STEP_PIXELS as int
        } else {
            -((-(self.orbit_x as int)) / ORBIT_STEP_PIXELS as int)
        }
    }

    pub open spec fn orbit_rest(&self) -> int {
        self.orbit_x - self.orbit_turns() * ORBIT_STEP_PIXELS
    }

    /// Records scroll steps; positive steps zoom in.
    pub fn process_scroll(&mut self, steps: i32)
        ensures
            final(self).scroll == sat_add_i32(old(self).scroll as int, steps as int),
            *final(self) == (CameraController { scroll: final(self).scroll, ..*old(self) }),
    {
        self.scroll = sat_add(self.scroll, steps);
    }

    /// Camera after applying the accumulated input: dragging moves the
    /// center against the pointer along the screen's right and up axes,
    /// each `ORBIT_STEP_PIXELS` of orbit drag turns the view a quarter turn,
    /// and each scroll step takes `zoom_step_pct` off the zoom.
    pub open spec fn moved_camera(&self, cam: Camera) -> Camera {
        let px = -(self.drag_x as int * self.pan_speed as int);
        let py = self.drag_y as int * self.pan_speed as int;
        Camera {
            center2: Point3L {
                x: clamp_int(cam.center2.x + px - py, -CENTER_LIMIT as int, CENTER_LIMIT as int) as i64,
                y: clamp_int(cam.center2.y - px - py, -CENTER_LIMIT as int, CENTER_LIMIT as int) as i64,
                z: clamp_int(cam.center2.z + 2 * py, -CENTER_LIMIT as int, CENTER_LIMIT as int) as i64,
            },
            zoom_pct: clamp_int(
                cam.zoom_pct - self.scroll as int * self.zoom_step_pct as int,
                MIN_ZOOM_PCT as int,
                MAX_ZOOM_PCT as int,
            ) as u32,
            azimuth: ((cam.azimuth + self.orbit_turns()) % (AZIMUTH_STEPS as int)) as u8,
            projection: cam.projection,
        }
    }

    /// Applies the accumulated input to the camera and clears it.
    pub fn update_camera(&mut self, camera: &mut Camera)
        requires
            old(self).wf(),
            old(camera).wf(),
        ensures
            *final(camera) == old(self).moved_camera(*old(camera)),
            final(camera).wf(),
            *final(self) == (CameraController {
                drag_x: 0,
                drag_y: 0,
                scroll: 0,
                orbit_x: old(self).orbit_rest() as i32,
                ..*old(self)
            }),
    {
        let speed = self.pan_speed as i64;
        assert(-0x8000_0000_0000 <= self.drag_x * speed <= 0x8000_0000_0000) by (nonlinear_arith)
            requires -0x8000_0000 <= self.drag_x <= 0x8000_0000, 0 <= speed <= 1024;
        assert(-0x8000_0000_0000 <= self.drag_y * speed <= 0x8000_0000_0000) by (nonlinear_arith)
            requires -0x8000_0000 <= self.drag_y <= 0x8000_0000, 0 <= speed <= 1024;
        assert(-0x80_0000_0000 <= self.scroll * self.zoom_step_pct <= 0x80_0000_0000) by (nonlinear_arith)
            requires -0x8000_0000 <= self.scroll <= 0x8000_0000, 0 <= self.zoom_step_pct <= 100;
        let px: i64 = -(self.drag_x as i64 * speed);
        let py: i64 = self.drag_y as i64 * speed;
        let lim = CENTER_LIMIT;
        let cx = clamp_i64(camera.center2.x + px - py, -lim, lim);
        let cy = clamp_i64(camera.center2.y - px - py, -lim, lim);
        let cz = clamp_i64(camera.center2.z + 2 * py, -lim, lim);
        let zoom = clamp_i64(
            camera.zoom_pct as i64 - self.scroll as i64 * self.zoom_step_pct as i64,
            MIN_ZOOM_PCT as i64,
            MAX_ZOOM_PCT as i64,
        );
        let o: i64 = self.orbit_x as i64;
        let step: i64 = ORBIT_STEP_PIXELS as i64;
        let (turns, rest): (i64, i64) = if o >= 0 {
            (o / step, o % step)
        } else {
            (-((-o) / step), -((-o) % step))
        };
        proof {
            let (oi, si) = (o as int, step as int);
            if o >= 0 {
                vstd::arithmetic::div_mod::lemma_fundamental_div_mod(oi, si);
            } else {
                vstd::arithmetic::div_mod::lemma_fundamental_div_mod(-oi, si);
            }
        }
        let az: i64 = camera.azimuth as i64 + turns;
        let naz: i64 = if az >= 0 {
            az % 4
        } else {
            (4 - ((-az) % 4)) % 4
        };
        proof {
            let ai = az as int;
            if az < 0 {
                vstd::arithmetic::div_mod::lemma_fundamental_div_mod(-ai, 4);
                vstd::arithmetic::div_mod::lemma_fundamental_div_mod(ai, 4);
                vstd::arithmetic::div_mod::lemma_mod_pos_bound(-ai, 4);
                let q = (-ai) / 4;
                let r = (-ai) % 4;
                if r == 0 {
                    vstd::arithmetic::div_mod::lemma_fundamental_div_mod_converse(ai, 4, -q, 0);
                } else {
                    vstd::arithmetic::div_mod::lemma_fundamental_div_mod_converse(ai, 4, -q - 1, 4 - r);
                }
            }
        }
        camera.center2 = Point3L { x: cx, y: cy, z: cz };
        camera.zoom_pct = zoom as u32;
        camera.azimuth = naz as u8;
        self.orbit_x = rest as i32;
        self.drag_x = 0;
        self.drag_y = 0;
        self.scroll = 0;
    }
}

} // verus!
