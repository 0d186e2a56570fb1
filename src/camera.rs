use vstd::prelude::*;
use crate::volume::Aabb;

verus! {

/// Largest viewport side, in pixels, that a projection accepts.
pub const MAX_VIEWPORT: u32 = 65536;

/// Zoom is a percentage of the framing extent; these are its bounds.
pub const MIN_ZOOM_PCT: u32 = 1;
pub const MAX_ZOOM_PCT: u32 = 1000;

/// Bound on each coordinate of a camera's doubled center.
pub const CENTER_LIMIT: i64 = 0x4_0000_0000;

/// Bound on a projection's squared extent.
pub const EXTENT_SQ_LIMIT: u128 = 0x10_0000_0000_0000_0000;

/// A point with 64-bit coordinates, used for doubled centers.
#[derive(Clone, Copy, Debug, PartialEq, Eq, Structural)]
pub struct Point3L {
    pub x: i64,
    pub y: i64,
    pub z: i64,
}

/// Orthographic projection: the viewport's size in pixels and the square
/// of the view volume's vertical extent in world units. The horizontal
/// extent follows from the viewport's aspect ratio.
#[derive(Clone, Copy, Debug, PartialEq, Eq, Structural)]
pub struct OrthographicProjection {
    pub viewport_w: u32,
    pub viewport_h: u32,
    pub extent_sq: u128,
}

impl OrthographicProjection {
    pub open spec fn wf(&self) -> bool {
        0 < self.viewport_w <= MAX_VIEWPORT && 0 < self.viewport_h <= MAX_VIEWPORT
            && self.extent_sq <= EXTENT_SQ_LIMIT
    }

    pub fn new(viewport_w: u32, viewport_h: u32, extent_sq: u128) -> (r: OrthographicProjection)
        requires
            0 < viewport_w <= MAX_VIEWPORT,
            0 < viewport_h <= MAX_VIEWPORT,
            extent_sq <= EXTENT_SQ_LIMIT,
        ensures
            r.wf(),
            r.viewport_w == viewport_w,
            r.viewport_h == viewport_h,
            r.extent_sq == extent_sq,
    {
        OrthographicProjection { viewport_w, viewport_h, extent_sq }
    }

    /// Framing for a bounding box: the vertical extent is the diameter of
    /// its bounding sphere.
    pub fn for_aabb(aabb: &Aabb, viewport_w: u32, viewport_h: u32) -> (r: OrthographicProjection)
        requires
            aabb.valid(),
            0 < viewport_w <= MAX_VIEWPORT,
            0 < viewport_h <= MAX_VIEWPORT,
        ensures
            r.wf(),
            r.viewport_w == viewport_w,
            r.viewport_h == viewport_h,
            r.extent_sq == aabb.diag_sq_spec(),
    {
        let d = aabb.diag_sq();
        OrthographicProjection { viewport_w, viewport_h, extent_sq: d }
    }

    /// Takes a new viewport size; the vertical extent is kept, so only the
    /// aspect ratio changes.
    pub fn resize(&mut self, width: u32, height: u32)
        requires
            old(self).wf(),
            0 < width <= MAX_VIEWPORT,
            0 < height <= MAX_VIEWPORT,
        ensures
            final(self).wf(),
            final(self).viewport_w == width,
            final(self).viewport_h == height,
            final(self).extent_sq == old(self).extent_sq,
    {
        self.viewport_w = width;
        self.viewport_h = height;
    }
}

/// Number of view directions the camera orbits through.
pub const AZIMUTH_STEPS: u8 = 4;

/// An orthographic camera looking along an isometric diagonal towards
/// `center2 / 2`, with the view extent scaled by `zoom_pct / 100`. The
/// diagonal is `(1, 1, 1)` turned by `azimuth` quarter turns about the
/// vertical (z) axis.
#[derive(Clone, Copy, Debug, PartialEq, Eq, Structural)]
pub struct Camera {
    pub center2: Point3L,
    pub zoom_pct: u32,
    pub azimuth: u8,
    pub projection: OrthographicProjection,
}

/// First horizontal component of `(dx, dy)` seen from a camera turned by
/// `k` quarter turns.
pub open spec fn turn_x(dx: int, dy: int, k: int) -> int {
    if k == 0 {
        dx
    } else if k == 1 {
        dy
    } else if k == 2 {
        -dx
    } else {
        -dy
    }
}

/// Second horizontal component of `(dx, dy)` seen from a camera turned by
/// `k` quarter turns.
pub open spec fn turn_y(dx: int, dy: int, k: int) -> int {
    if k == 0 {
        dy
    } else if k == 1 {
        -dx
    } else if k == 2 {
        -dy
    } else {
        dx
    }
}

/// Component of `(dx, dy, dz)` along the screen's right axis `(1, -1, 0)`.
pub open spec fn along_right(dx: int, dy: int, dz: int) -> int {
    dx - dy
}

/// Component along the screen's up axis `(-1, -1, 2)`.
pub open spec fn along_up(dx: int, dy: int, dz: int) -> int {
    2 * dz - dx - dy
}

impl Camera {
    pub open spec fn wf(&self) -> bool {
        &&& self.projection.wf()
        &&& MIN_ZOOM_PCT <= self.zoom_pct <= MAX_ZOOM_PCT
        &&& self.azimuth < AZIMUTH_STEPS
        &&& -CENTER_LIMIT <= self.center2.x <= CENTER_LIMIT
        &&& -CENTER_LIMIT <= self.center2.y <= CENTER_LIMIT
        &&& -CENTER_LIMIT <= self.center2.z <= CENTER_LIMIT
    }

    /// A point projects inside `[-1, 1]` on both screen axes. Distances are
    /// doubled (`2 * p - center2`) and compared squared, so the test is exact:
    /// `|d . u| / |u| <= extent * zoom / 2` with `|up|^2 = 6`, `|right|^2 = 2`,
    /// and the horizontal extent scaled by `viewport_w / viewport_h`.
    pub open spec fn point_visible(&self, px: int, py: int, pz: int) -> bool {
        let ex = 2 * px - self.center2.x;
        let ey = 2 * py - self.center2.y;
        let dz = 2 * pz - self.center2.z;
        let dx = turn_x(ex, ey, self.azimuth as int);
        let dy = turn_y(ex, ey, self.azimuth as int);
        let u = along_up(dx, dy, dz);
        let r = along_right(dx, dy, dz);
        let z = self.zoom_pct as int;
        let w = self.projection.viewport_w as int;
        let h = self.projection.viewport_h as int;
        let e = self.projection.extent_sq as int;
        &&& u * u * 10000 <= e * z * z * 6
        &&& r * r * 10000 * h * h <= e * z * z * 2 * w * w
    }

    /// The corner of the box on the maximum side of each axis whose flag is set
    /// projects inside the view.
    pub open spec fn corner_visible(&self, aabb: Aabb, ix: bool, iy: bool, iz: bool) -> bool {
        self.point_visible(
            if ix { aabb.max.x as int } else { aabb.min.x as int },
            if iy { aabb.max.y as int } else { aabb.min.y as int },
            if iz { aabb.max.z as int } else { aabb.min.z as int },
        )
    }

    /// Every corner of the box projects inside the view.
    pub open spec fn visible_spec(&self, aabb: Aabb) -> bool {
        forall|ix: bool, iy: bool, iz: bool| #[trigger] self.corner_visible(aabb, ix, iy, iz)
    }

    /// Camera framing a box: centered on it, seen along the isometric
    /// diagonal, at full extent.
    pub fn new_aabb_iso(aabb: Aabb, projection: OrthographicProjection) -> (r: Camera)
        requires
            aabb.valid(),
            projection.wf(),
        ensures
            r.wf(),
            r.center2.x == aabb.min.x + aabb.max.x,
            r.center2.y == aabb.min.y + aabb.max.y,
            r.center2.z == aabb.min.z + aabb.max.z,
            r.zoom_pct == 100,
            r.azimuth == 0,
            r.projection == projection,
    {
        Camera {
            center2: Point3L {
                x: aabb.min.x as i64 + aabb.max.x as i64,
                y: aabb.min.y as i64 + aabb.max.y as i64,
                z: aabb.min.z as i64 + aabb.max.z as i64,
            },
            zoom_pct: 100,
            azimuth: 0,
            projection,
        }
    }

    fn point_visible_exec(&self, px: i32, py: i32, pz: i32) -> (r: bool)
        requires
            self.wf(),
        ensures
            r == self.point_visible(px as int, py as int, pz as int),
    {
        let ex: i64 = 2 * px as i64 - self.center2.x;
        let ey: i64 = 2 * py as i64 - self.center2.y;
        let dz: i64 = 2 * pz as i64 - self.center2.z;
        let (dx, dy): (i64, i64) = if self.azimuth == 0 {
            (ex, ey)
        } else if self.azimuth == 1 {
            (ey, -ex)
        } else if self.azimuth == 2 {
            (-ex, -ey)
        } else {
            (-ey, ex)
        };
        let u: i64 = 2 * dz - dx - dy;
        let r: i64 = dx - dy;
        proof {
            assert(-0x40_0000_0000 < u < 0x40_0000_0000);
            assert(-0x40_0000_0000 < r < 0x40_0000_0000);
            assert(0 <= u * u < 0x1000_0000_0000_0000_0000) by (nonlinear_arith)
                requires -0x40_0000_0000 < u < 0x40_0000_0000;
            assert(0 <= r * r < 0x1000_0000_0000_0000_0000) by (nonlinear_arith)
                requires -0x40_0000_0000 < r < 0x40_0000_0000;
        }
        let uu: u128 = (u as i128 * u as i128) as u128;
        let rr: u128 = (r as i128 * r as i128) as u128;
        let z: u128 = self.zoom_pct as u128;
        let w: u128 = self.projection.viewport_w as u128;
        let h: u128 = self.projection.viewport_h as u128;
        let e: u128 = self.projection.extent_sq;
        proof { lemma_mul_le(uu as int, 0x1000_0000_0000_0000_0000, 10000, 10000); }
        let uu10 = uu * 10000;
        proof { lemma_mul_le(e as int, EXTENT_SQ_LIMIT as int, z as int, 1000); }
        let ez = e * z;
        proof { lemma_mul_le(ez as int, EXTENT_SQ_LIMIT * 1000, z as int, 1000); }
        let ezz = ez * z;
        let rv = ezz * 6;
        proof { lemma_mul_le(rr as int, 0x1000_0000_0000_0000_0000, 10000, 10000); }
        let rr10 = rr * 10000;
        proof { lemma_mul_le(rr10 as int, 0x1000_0000_0000_0000_0000int * 10000, h as int, 65536); }
        let rr10h = rr10 * h;
        proof { lemma_mul_le(rr10h as int, 0x1000_0000_0000_0000_0000int * 10000 * 65536, h as int, 65536); }
        let lh = rr10h * h;
        let ezz2 = ezz * 2;
        proof { lemma_mul_le(ezz2 as int, EXTENT_SQ_LIMIT * 1000 * 1000 * 2, w as int, 65536); }
        let ezz2w = ezz2 * w;
        proof { lemma_mul_le(ezz2w as int, EXTENT_SQ_LIMIT * 1000 * 1000 * 2 * 65536, w as int, 65536); }
        let rh = ezz2w * w;
        let vertical = uu10 <= rv;
        let horizontal = lh <= rh;
        vertical && horizontal
    }

    /// Whether every corner of the box projects inside the current view;
    /// depth is not checked.
    pub fn visible(&self, aabb: &Aabb) -> (r: bool)
        requires
            self.wf(),
        ensures
            r == self.visible_spec(*aabb),
    {
        let (x0, y0, z0) = (aabb.min.x, aabb.min.y, aabb.min.z);
        let (x1, y1, z1) = (aabb.max.x, aabb.max.y, aabb.max.z);
        let r = self.point_visible_exec(x0, y0, z0) && self.point_visible_exec(x0, y0, z1)
            && self.point_visible_exec(x0, y1, z0) && self.point_visible_exec(x0, y1, z1)
            && self.point_visible_exec(x1, y0, z0) && self.point_visible_exec(x1, y0, z1)
            && self.point_visible_exec(x1, y1, z0) && self.point_visible_exec(x1, y1, z1);
        proof {
            if r {
                assert forall|ix: bool, iy: bool, iz: bool|
                    #[trigger] self.corner_visible(*aabb, ix, iy, iz) by {}
            } else {
                assert(!self.corner_visible(*aabb, false, false, false)
                    || !self.corner_visible(*aabb, false, false, true)
                    || !self.corner_visible(*aabb, false, true, false)
                    || !self.corner_visible(*aabb, false, true, true)
                    || !self.corner_visible(*aabb, true, false, false)
                    || !self.corner_visible(*aabb, true, false, true)
                    || !self.corner_visible(*aabb, true, true, false)
                    || !self.corner_visible(*aabb, true, true, true));
            }
        }
        r
    }
}

proof fn lemma_mul_le(a: int, bound_a: int, b: int, bound_b: int)
    requires
        0 <= a <= bound_a,
        0 <= b <= bound_b,
    ensures
        0 <= a * b <= bound_a * bound_b,
{
    assert(0 <= a * b <= bound_a * bound_b) by (nonlinear_arith)
        requires 0 <= a <= bound_a, 0 <= b <= bound_b;
}

proof fn lemma_cauchy_up(a: int, b: int, c: int)
    ensures
        along_up(a, b, c) * along_up(a, b, c) <= 6 * (a * a + b * b + c * c),
{
    assert(6 * (a * a + b * b + c * c) - along_up(a, b, c) * along_up(a, b, c) == (2 * b + c) * (2
        * b + c) + (c + 2 * a) * (c + 2 * a) + (b - a) * (b - a)) by (nonlinear_arith);
    assert((2 * b + c) * (2 * b + c) >= 0) by (nonlinear_arith);
    assert((c + 2 * a) * (c + 2 * a) >= 0) by (nonlinear_arith);
    assert((b - a) * (b - a) >= 0) by (nonlinear_arith);
}

proof fn lemma_cauchy_right(a: int, b: int, c: int)
    ensures
        along_right(a, b, c) * along_right(a, b, c) <= 2 * (a * a + b * b + c * c),
{
    assert(2 * (a * a + b * b + c * c) - along_right(a, b, c) * along_right(a, b, c) == (a + b) * (a
        + b) + 2 * (c * c)) by (nonlinear_arith);
    assert((a + b) * (a + b) >= 0) by (nonlinear_arith);
    assert(c * c >= 0) by (nonlinear_arith);
}

/// A camera centered on a box at full extent, as `new_aabb_iso` makes it and
/// from any of its orbit directions, sees every corner of the box it frames,
/// when the projection's extent covers the box's bounding sphere and the
/// viewport is at least as wide as it is tall.
pub proof fn lemma_iso_camera_sees_aabb(aabb: Aabb, projection: OrthographicProjection, cam: Camera)
    requires
        aabb.valid(),
        projection.wf(),
        projection.extent_sq >= aabb.diag_sq_spec(),
        projection.viewport_w >= projection.viewport_h,
        cam.center2.x == aabb.min.x + aabb.max.x,
        cam.center2.y == aabb.min.y + aabb.max.y,
        cam.center2.z == aabb.min.z + aabb.max.z,
        cam.zoom_pct == 100,
        cam.azimuth < AZIMUTH_STEPS,
        cam.projection == projection,
    ensures
        cam.visible_spec(aabb),
{
    let e = projection.extent_sq as int;
    let w = projection.viewport_w as int;
    let h = projection.viewport_h as int;
    assert forall|ix: bool, iy: bool, iz: bool| #[trigger] cam.corner_visible(aabb, ix, iy, iz) by {
        let px = if ix { aabb.max.x as int } else { aabb.min.x as int };
        let py = if iy { aabb.max.y as int } else { aabb.min.y as int };
        let pz = if iz { aabb.max.z as int } else { aabb.min.z as int };
        let ea = 2 * px - cam.center2.x;
        let eb = 2 * py - cam.center2.y;
        let k = cam.azimuth as int;
        let a = turn_x(ea, eb, k);
        let b = turn_y(ea, eb, k);
        let c = 2 * pz - cam.center2.z;
        let ex = aabb.max.x - aabb.min.x;
        let ey = aabb.max.y - aabb.min.y;
        let ez = aabb.max.z - aabb.min.z;
        assert(ea == ex || ea == -ex);
        assert(eb == ey || eb == -ey);
        assert(ea * ea == ex * ex) by (nonlinear_arith) requires ea == ex || ea == -ex;
        assert(eb * eb == ey * ey) by (nonlinear_arith) requires eb == ey || eb == -ey;
        assert(a * a + b * b == ea * ea + eb * eb) by (nonlinear_arith)
            requires (a == ea && b == eb) || (a == eb && b == -ea) || (a == -ea && b == -eb)
                || (a == -eb && b == ea);
        assert(c == ez || c == -ez);
        assert(c * c == ez * ez) by (nonlinear_arith) requires c == ez || c == -ez;
        let n = a * a + b * b + c * c;
        assert(n == aabb.diag_sq_spec());
        lemma_cauchy_up(a, b, c);
        lemma_cauchy_right(a, b, c);
        let u = along_up(a, b, c);
        let r = along_right(a, b, c);
        assert(u * u * 10000 <= e * 100 * 100 * 6) by (nonlinear_arith)
            requires u * u <= 6 * n, n <= e;
        assert(r * r >= 0) by (nonlinear_arith);
        assert(r * r * 10000 * h * h <= e * 100 * 100 * 2 * w * w) by (nonlinear_arith)
            requires r * r <= 2 * n, n <= e, 0 < h <= w, r * r >= 0;
    }
}

} // verus!
