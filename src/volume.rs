use vstd::prelude::*;
use crate::clock::FIXED_ONE;

verus! {

/// A point in world units.
#[derive(Clone, Copy, Debug, PartialEq, Eq, Structural)]
pub struct Point3 {
    pub x: i32,
    pub y: i32,
    pub z: i32,
}

/// Axis-aligned bounding box given by its two opposite corners.
#[derive(Clone, Copy, Debug, PartialEq, Eq, Structural)]
pub struct Aabb {
    pub min: Point3,
    pub max: Point3,
}

impl Aabb {
    /// Every extent is positive.
    pub open spec fn valid(&self) -> bool {
        self.min.x < self.max.x && self.min.y < self.max.y && self.min.z < self.max.z
    }

    pub fn new(min: Point3, max: Point3) -> (r: Aabb)
        ensures
            r.min == min,
            r.max == max,
    {
        Aabb { min, max }
    }

    pub fn is_valid(&self) -> (r: bool)
        ensures
            r == self.valid(),
    {
        self.min.x < self.max.x && self.min.y < self.max.y && self.min.z < self.max.z
    }

    /// Twice the center, so that it stays an integer point.
    pub open spec fn center2_spec(&self) -> (int, int, int) {
        (
            self.min.x + self.max.x,
            self.min.y + self.max.y,
            self.min.z + self.max.z,
        )
    }

    /// Squared length of the diagonal, which is the squared diameter of the
    /// bounding sphere (four times the squared radius).
    pub open spec fn diag_sq_spec(&self) -> int {
        let dx = self.max.x - self.min.x;
        let dy = self.max.y - self.min.y;
        let dz = self.max.z - self.min.z;
        dx * dx + dy * dy + dz * dz
    }

    pub fn diag_sq(&self) -> (r: u128)
        requires
            self.valid(),
        ensures
            r == self.diag_sq_spec(),
            r < 0x4_0000_0000_0000_0000,
    {
        let dx: i64 = self.max.x as i64 - self.min.x as i64;
        let dy: i64 = self.max.y as i64 - self.min.y as i64;
        let dz: i64 = self.max.z as i64 - self.min.z as i64;
        assert(0 < dx < 0x1_0000_0000);
        assert(0 < dy < 0x1_0000_0000);
        assert(0 < dz < 0x1_0000_0000);
        let (ux, uy, uz) = (dx as u128, dy as u128, dz as u128);
        assert(ux * ux < 0x1_0000_0000_0000_0000) by (nonlinear_arith) requires ux < 0x1_0000_0000;
        assert(uy * uy < 0x1_0000_0000_0000_0000) by (nonlinear_arith) requires uy < 0x1_0000_0000;
        assert(uz * uz < 0x1_0000_0000_0000_0000) by (nonlinear_arith) requires uz < 0x1_0000_0000;
        ux * ux + uy * uy + uz * uz
    }
}

/// How a texture is read between its samples.
#[derive(Clone, Copy, Debug, PartialEq, Eq, Structural)]
pub enum FilterMode {
    Nearest,
    Linear,
}

/// Why a volume description was rejected.
#[derive(Clone, Copy, Debug, PartialEq, Eq, Structural)]
pub enum VolumeError {
    /// A dimension, the channel count or the timestep count is zero.
    EmptyDimension,
    /// The bounding box has an extent that is not positive.
    DegenerateAabb,
    /// The sample buffer's length is not the product of the dimensions.
    ShapeMismatch,
}

/// A scalar or vector field sampled on a regular grid, possibly over time.
/// Samples are laid out with the channel varying fastest, then x, y, z and
/// the timestep.
pub struct Volume {
    pub width: u32,
    pub height: u32,
    pub depth: u32,
    pub channels: u32,
    pub timesteps: u32,
    pub aabb: Aabb,
    pub data: Vec<u16>,
}

/// Number of samples of a volume of the given shape.
pub open spec fn shape_len(width: int, height: int, depth: int, channels: int, timesteps: int) -> int {
    timesteps * depth * height * width * channels
}

/// Position of one sample in the flat buffer.
pub open spec fn index_spec(
    width: int,
    height: int,
    depth: int,
    channels: int,
    x: int,
    y: int,
    z: int,
    c: int,
    t: int,
) -> int {
    (((t * depth + z) * height + y) * width + x) * channels + c
}

proof fn lemma_radix_step(a: int, na: int, b: int, nb: int)
    requires
        0 <= a < na,
        0 <= b < nb,
    ensures
        0 <= a * nb + b < na * nb,
{
    assert(0 <= a * nb + b < na * nb) by (nonlinear_arith)
        requires 0 <= a < na, 0 <= b < nb;
}

proof fn lemma_grow(p: int, f: int)
    requires
        p >= 0,
        f >= 1,
    ensures
        p * f >= p,
{
    assert(p * f >= p) by (nonlinear_arith) requires p >= 0, f >= 1;
}

/// Linear interpolation between two sample values at fraction `f` of
/// `FIXED_ONE`, scaled by `FIXED_ONE`.
pub open spec fn lerp_fixed(v0: int, v1: int, f: int) -> int {
    v0 * (FIXED_ONE - f) + v1 * f
}

impl Volume {
    pub open spec fn shape_ok(&self) -> bool {
        self.width > 0 && self.height > 0 && self.depth > 0 && self.channels > 0
            && self.timesteps > 0
    }

    pub open spec fn wf(&self) -> bool {
        &&& self.shape_ok()
        &&& self.aabb.valid()
        &&& self.data@.len() == shape_len(
            self.width as int,
            self.height as int,
            self.depth as int,
            self.channels as int,
            self.timesteps as int,
        )
    }

    pub open spec fn in_bounds(&self, x: int, y: int, z: int, c: int, t: int) -> bool {
        0 <= x < self.width && 0 <= y < self.height && 0 <= z < self.depth && 0 <= c
            < self.channels && 0 <= t < self.timesteps
    }

    pub open spec fn sample_spec(&self, x: int, y: int, z: int, c: int, t: int) -> int {
        self.data@[index_spec(
            self.width as int,
            self.height as int,
            self.depth as int,
            self.channels as int,
            x,
            y,
            z,
            c,
            t,
        )] as int
    }

    /// Builds a volume from a decoded sample buffer, checking its shape.
    pub fn load(
        data: Vec<u16>,
        width: u32,
        height: u32,
        depth: u32,
        channels: u32,
        timesteps: u32,
        aabb: Aabb,
    ) -> (r: Result<Volume, VolumeError>)
        ensures
            (width == 0 || height == 0 || depth == 0 || channels == 0 || timesteps == 0) ==> r
                == Err::<Volume, VolumeError>(VolumeError::EmptyDimension),
            (width > 0 && height > 0 && depth > 0 && channels > 0 && timesteps > 0
                && !aabb.valid()) ==> r == Err::<Volume, VolumeError>(VolumeError::DegenerateAabb),
            (width > 0 && height > 0 && depth > 0 && channels > 0 && timesteps > 0 && aabb.valid()
                && data@.len() != shape_len(
                width as int,
                height as int,
                depth as int,
                channels as int,
                timesteps as int,
            )) ==> r == Err::<Volume, VolumeError>(VolumeError::ShapeMismatch),
            r is Ok <==> (width > 0 && height > 0 && depth > 0 && channels > 0 && timesteps > 0
                && aabb.valid() && data@.len() == shape_len(
                width as int,
                height as int,
                depth as int,
                channels as int,
                timesteps as int,
            )),
            r matches Ok(v) ==> v.wf() && v.data@ == data@ && v.width == width && v.height
                == height && v.depth == depth && v.channels == channels && v.timesteps
                == timesteps && v.aabb == aabb,
    {
        if width == 0 || height == 0 || depth == 0 || channels == 0 || timesteps == 0 {
            return Err(VolumeError::EmptyDimension);
        }
        if !aabb.is_valid() {
            return Err(VolumeError::DegenerateAabb);
        }
        let len: u128 = data.len() as u128;
        let ghost (w, h, d, c, t) = (
            width as int,
            height as int,
            depth as int,
            channels as int,
            timesteps as int,
        );
        // Multiply in the order of `shape_len`, stopping once the product
        // passes the buffer length: every factor is at least one.
        let mut p: u128 = timesteps as u128;
        let mut matches = p <= len;
        assert(len < 0x1_0000_0000_0000_0000);
        if matches {
            assert(p * depth < 0x1_0000_0000_0000_0000_0000_0000) by (nonlinear_arith)
                requires p <= len, len < 0x1_0000_0000_0000_0000, depth < 0x1_0000_0000;
            p = p * depth as u128;
            proof { lemma_grow(t, d); }
            matches = p <= len;
        }
        if matches {
            assert(p * height < 0x1_0000_0000_0000_0000_0000_0000) by (nonlinear_arith)
                requires p <= len, len < 0x1_0000_0000_0000_0000, height < 0x1_0000_0000;
            p = p * height as u128;
            proof { lemma_grow(t * d, h); }
            matches = p <= len;
        }
        if matches {
            assert(p * width < 0x1_0000_0000_0000_0000_0000_0000) by (nonlinear_arith)
                requires p <= len, len < 0x1_0000_0000_0000_0000, width < 0x1_0000_0000;
            p = p * width as u128;
            proof { lemma_grow(t * d * h, w); }
            matches = p <= len;
        }
        if matches {
            assert(p * channels < 0x1_0000_0000_0000_0000_0000_0000) by (nonlinear_arith)
                requires p <= len, len < 0x1_0000_0000_0000_0000, channels < 0x1_0000_0000;
            p = p * channels as u128;
            proof { lemma_grow(t * d * h * w, c); }
            matches = p == len;
        }
        proof {
            if !matches {
                lemma_grow(t, d);
                lemma_grow(t * d, h);
                lemma_grow(t * d * h, w);
                lemma_grow(t * d * h * w, c);
            }
        }
        if !matches {
            return Err(VolumeError::ShapeMismatch);
        }
        Ok(Volume { width, height, depth, channels, timesteps, aabb, data })
    }

    /// Position of a sample in the flat buffer.
    pub fn index(&self, x: u32, y: u32, z: u32, c: u32, t: u32) -> (r: usize)
        requires
            self.wf(),
            self.in_bounds(x as int, y as int, z as int, c as int, t as int),
        ensures
            r == index_spec(
                self.width as int,
                self.height as int,
                self.depth as int,
                self.channels as int,
                x as int,
                y as int,
                z as int,
                c as int,
                t as int,
            ),
            r < self.data@.len(),
    {
        let ghost (w, h, d, ch, tt) = (
            self.width as int,
            self.height as int,
            self.depth as int,
            self.channels as int,
            self.timesteps as int,
        );
        let n: usize = self.data.len();
        let ghost len = n as int;
        proof {
            lemma_radix_step(t as int, tt, z as int, d);
            lemma_radix_step(t * d + z, tt * d, y as int, h);
            lemma_radix_step((t * d + z) * h + y, tt * d * h, x as int, w);
            lemma_radix_step(((t * d + z) * h + y) * w + x, tt * d * h * w, c as int, ch);
            lemma_grow(tt * d, h);
            lemma_grow(tt * d * h, w);
            lemma_grow(tt * d * h * w, ch);
            assert(t * d <= t * d + z);
            assert(0 <= (t * d + z) * h <= (t * d + z) * h + y) by (nonlinear_arith)
                requires t * d + z >= 0, h >= 0, y >= 0;
            assert(0 <= ((t * d + z) * h + y) * w <= ((t * d + z) * h + y) * w + x) by (nonlinear_arith)
                requires (t * d + z) * h + y >= 0, w >= 0, x >= 0;
            assert(0 <= (((t * d + z) * h + y) * w + x) * ch) by (nonlinear_arith)
                requires ((t * d + z) * h + y) * w + x >= 0, ch >= 0;
            assert(0 <= t * d) by (nonlinear_arith) requires t >= 0, d >= 0;
        }
        let i1: u128 = t as u128 * self.depth as u128 + z as u128;
        let i2: u128 = i1 * self.height as u128 + y as u128;
        let i3: u128 = i2 * self.width as u128 + x as u128;
        let i4: u128 = i3 * self.channels as u128 + c as u128;
        assert(i4 < n);
        i4 as usize
    }

    /// One stored sample.
    pub fn sample(&self, x: u32, y: u32, z: u32, c: u32, t: u32) -> (r: u16)
        requires
            self.wf(),
            self.in_bounds(x as int, y as int, z as int, c as int, t as int),
        ensures
            r == self.sample_spec(x as int, y as int, z as int, c as int, t as int),
    {
        let i = self.index(x, y, z, c, t);
        self.data[i]
    }

    /// The two timesteps that bracket `time` (a fraction of `FIXED_ONE` of
    /// the whole animation) and the fraction of the way from the first to
    /// the second, in units of `FIXED_ONE`.
    pub open spec fn bracket(&self, time: int) -> (int, int) {
        let pos = time * (self.timesteps - 1);
        (pos / FIXED_ONE as int, pos % FIXED_ONE as int)
    }

    /// Value of one sample at an animation time, interpolated between
    /// timesteps by the temporal filter, scaled by `FIXED_ONE`.
    pub open spec fn temporal_spec(
        &self,
        x: int,
        y: int,
        z: int,
        c: int,
        time: int,
        filter: FilterMode,
    ) -> int {
        if self.timesteps == 1 {
            self.sample_spec(x, y, z, c, 0) * FIXED_ONE
        } else {
            let (i, f) = self.bracket(time);
            match filter {
                FilterMode::Nearest => {
                    let j = if 2 * f >= FIXED_ONE { i + 1 } else { i };
                    self.sample_spec(x, y, z, c, j) * FIXED_ONE
                },
                FilterMode::Linear => lerp_fixed(
                    self.sample_spec(x, y, z, c, i),
                    self.sample_spec(x, y, z, c, i + 1),
                    f,
                ),
            }
        }
    }

    /// Samples one grid point at animation time `time` (in `[0, FIXED_ONE)`),
    /// returning the value scaled by `FIXED_ONE`.
    pub fn sample_at_time(
        &self,
        x: u32,
        y: u32,
        z: u32,
        c: u32,
        time: u32,
        filter: FilterMode,
    ) -> (r: u64)
        requires
            self.wf(),
            self.in_bounds(x as int, y as int, z as int, c as int, 0),
            time < FIXED_ONE,
        ensures
            r == self.temporal_spec(x as int, y as int, z as int, c as int, time as int, filter),
    {
        if self.timesteps == 1 {
            return self.sample(x, y, z, c, 0) as u64 * FIXED_ONE as u64;
        }
        assert(time * (self.timesteps - 1) < 0x1_0000_0000_0000_0000) by (nonlinear_arith)
            requires time < 0x1_0000, self.timesteps < 0x1_0000_0000;
        let pos: u64 = time as u64 * (self.timesteps - 1) as u64;
        let i: u64 = pos / FIXED_ONE as u64;
        let f: u64 = pos % FIXED_ONE as u64;
        proof {
            let n = self.timesteps as int - 1;
            assert(pos < FIXED_ONE * n) by (nonlinear_arith)
                requires pos == time * n, time < FIXED_ONE, n >= 1;
            assert(i < n) by (nonlinear_arith)
                requires pos < FIXED_ONE * n, i as int == pos as int / (FIXED_ONE as int), FIXED_ONE == 65536;
        }
        let i32v: u32 = i as u32;
        match filter {
            FilterMode::Nearest => {
                let j: u32 = if 2 * f >= FIXED_ONE as u64 { i32v + 1 } else { i32v };
                self.sample(x, y, z, c, j) as u64 * FIXED_ONE as u64
            },
            FilterMode::Linear => {
                let v0 = self.sample(x, y, z, c, i32v) as u64;
                let v1 = self.sample(x, y, z, c, i32v + 1) as u64;
                assert(v0 * (FIXED_ONE - f) <= 0x1_0000_0000) by (nonlinear_arith)
                    requires v0 < 0x1_0000, f < FIXED_ONE, FIXED_ONE == 65536;
                assert(v1 * f <= 0x1_0000_0000) by (nonlinear_arith)
                    requires v1 < 0x1_0000, f < FIXED_ONE, FIXED_ONE == 65536;
                v0 * (FIXED_ONE as u64 - f) + v1 * f
            },
        }
    }

    /// `x` is the smallest stored sample.
    pub open spec fn is_min(&self, x: int) -> bool {
        &&& exists|i: int| 0 <= i < self.data@.len() && #[trigger] self.data@[i] == x
        &&& forall|i: int| 0 <= i < self.data@.len() ==> x <= #[trigger] self.data@[i]
    }

    /// `x` is the largest stored sample.
    pub open spec fn is_max(&self, x: int) -> bool {
        &&& exists|i: int| 0 <= i < self.data@.len() && #[trigger] self.data@[i] == x
        &&& forall|i: int| 0 <= i < self.data@.len() ==> #[trigger] self.data@[i] <= x
    }

    pub open spec fn data_min(&self) -> int {
        choose|x: int| self.is_min(x)
    }

    pub open spec fn data_max(&self) -> int {
        choose|x: int| self.is_max(x)
    }

    /// The smallest and largest stored sample: the data's natural range.
    pub fn value_range(&self) -> (r: (u16, u16))
        requires
            self.wf(),
        ensures
            r.0 == self.data_min(),
            r.1 == self.data_max(),
            exists|i: int| 0 <= i < self.data@.len() && self.data@[i] == r.0,
            exists|i: int| 0 <= i < self.data@.len() && self.data@[i] == r.1,
            forall|i: int| 0 <= i < self.data@.len() ==> r.0 <= #[trigger] self.data@[i] <= r.1,
    {
        proof {
            assert(self.data@.len() >= 1) by (nonlinear_arith)
                requires self.data@.len() == shape_len(
                    self.width as int,
                    self.height as int,
                    self.depth as int,
                    self.channels as int,
                    self.timesteps as int,
                ), self.width >= 1, self.height >= 1, self.depth >= 1, self.channels >= 1,
                self.timesteps >= 1;
        }
        let mut lo = self.data[0];
        let mut hi = self.data[0];
        let ghost mut lo_at: int = 0;
        let ghost mut hi_at: int = 0;
        let mut k: usize = 1;
        while k < self.data.len()
            invariant
                1 <= k <= self.data@.len(),
                0 <= lo_at < self.data@.len(),
                0 <= hi_at < self.data@.len(),
                self.data@[lo_at] == lo,
                self.data@[hi_at] == hi,
                forall|i: int| 0 <= i < k ==> lo <= #[trigger] self.data@[i] <= hi,
            decreases self.data@.len() - k,
        {
            let v = self.data[k];
            if v < lo {
                lo = v;
                proof { lo_at = k as int; }
            }
            if v > hi {
                hi = v;
                proof { hi_at = k as int; }
            }
            k = k + 1;
        }
        proof {
            assert(self.is_min(lo as int));
            assert(self.is_max(hi as int));
            let m = self.data_min();
            let x = self.data_max();
            assert(self.is_min(m));
            assert(self.is_max(x));
            assert(m <= self.data@[lo_at]);
            assert(self.data@[hi_at] <= x);
            let im = choose|i: int| 0 <= i < self.data@.len() && #[trigger] self.data@[i] == m;
            let ix = choose|i: int| 0 <= i < self.data@.len() && #[trigger] self.data@[i] == x;
            assert(lo <= self.data@[im]);
            assert(self.data@[ix] <= hi);
        }
        (lo, hi)
    }

    /// The window samples are remapped through: `vmin` and `vmax` where
    /// set, the data's natural range where not. An unset end that would
    /// fall on the wrong side of a set one takes the set one's value.
    pub fn value_window(&self, vmin: Option<u16>, vmax: Option<u16>) -> (r: (u16, u16))
        requires
            self.wf(),
            match (vmin, vmax) {
                (Some(lo), Some(hi)) => lo <= hi,
                _ => true,
            },
        ensures
            r.0 <= r.1,
            (r.0 as int, r.1 as int) == window_spec(self.data_min(), self.data_max(), vmin, vmax),
    {
        let (dmin, dmax) = self.value_range();
        let lo = match vmin {
            Some(l) => l,
            None => match vmax {
                Some(h) => if dmin < h { dmin } else { h },
                None => dmin,
            },
        };
        let hi = match vmax {
            Some(h) => h,
            None => if dmax > lo { dmax } else { lo },
        };
        (lo, hi)
    }
}

/// The remap window for the given optional bounds over data whose natural
/// range is `[dmin, dmax]`.
pub open spec fn window_spec(dmin: int, dmax: int, vmin: Option<u16>, vmax: Option<u16>) -> (int, int) {
    let lo = match vmin {
        Some(l) => l as int,
        None => match vmax {
            Some(h) => if dmin < h { dmin } else { h as int },
            None => dmin,
        },
    };
    let hi = match vmax {
        Some(h) => h as int,
        None => if dmax > lo { dmax } else { lo },
    };
    (lo, hi)
}

/// Remaps a value scaled by `FIXED_ONE` through `[vmin, vmax]` onto
/// `[0, FIXED_ONE]`, clamping outside the range.
pub open spec fn normalize_spec(value: int, vmin: int, vmax: int) -> int {
    if value <= vmin * FIXED_ONE {
        0
    } else if value >= vmax * FIXED_ONE {
        FIXED_ONE as int
    } else {
        (value - vmin * FIXED_ONE) / (vmax - vmin)
    }
}

pub fn normalize(value: u64, vmin: u16, vmax: u16) -> (r: u32)
    requires
        vmin <= vmax,
    ensures
        r == normalize_spec(value as int, vmin as int, vmax as int),
        r <= FIXED_ONE,
{
    assert(vmax * FIXED_ONE <= 0x1_0000_0000) by (nonlinear_arith)
        requires vmax < 0x1_0000, FIXED_ONE == 65536;
    assert(vmin * FIXED_ONE <= 0x1_0000_0000) by (nonlinear_arith)
        requires vmin < 0x1_0000, FIXED_ONE == 65536;
    let lo: u64 = vmin as u64 * FIXED_ONE as u64;
    let hi: u64 = vmax as u64 * FIXED_ONE as u64;
    if value <= lo {
        0
    } else if value >= hi {
        FIXED_ONE
    } else {
        let span: u64 = (vmax - vmin) as u64;
        let q: u64 = (value - lo) / span;
        proof {
            assert(q <= FIXED_ONE) by (nonlinear_arith)
                requires value < hi, lo == vmin * FIXED_ONE, hi == vmax * FIXED_ONE,
                span == vmax - vmin, span > 0, q as int == (value as int - lo as int) / (span as int), value > lo,
                FIXED_ONE == 65536;
        }
        q as u32
    }
}

/// Halfway between two timesteps the linear temporal filter gives exactly
/// the mean of the two samples.
pub proof fn lemma_linear_midpoint(v: &Volume, x: int, y: int, z: int, c: int, time: int, i: int)
    requires
        v.wf(),
        v.timesteps > 1,
        time * (v.timesteps - 1) == i * FIXED_ONE + FIXED_ONE / 2,
        0 <= i,
    ensures
        2 * v.temporal_spec(x, y, z, c, time, FilterMode::Linear) == (v.sample_spec(x, y, z, c, i)
            + v.sample_spec(x, y, z, c, i + 1)) * FIXED_ONE,
{
    let pos = time * (v.timesteps - 1);
    vstd::arithmetic::div_mod::lemma_fundamental_div_mod_converse(
        pos,
        FIXED_ONE as int,
        i,
        (FIXED_ONE / 2) as int,
    );
    let a = v.sample_spec(x, y, z, c, i);
    let b = v.sample_spec(x, y, z, c, i + 1);
    assert(2 * lerp_fixed(a, b, (FIXED_ONE / 2) as int) == (a + b) * FIXED_ONE) by (nonlinear_arith)
        requires FIXED_ONE == 65536;
}

} // verus!
