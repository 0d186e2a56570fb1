use vstd::prelude::*;
use crate::clock::FIXED_ONE;

verus! {

/// Number of texels in a baked colormap texture.
pub const COLORMAP_RESOLUTION: u32 = 256;

/// An 8-bit RGBA color.
#[derive(Clone, Copy, Debug, PartialEq, Eq, Structural)]
pub struct Rgba8 {
    pub r: u8,
    pub g: u8,
    pub b: u8,
    pub a: u8,
}

/// A control point of a transfer function: a position in `[0, FIXED_ONE]`
/// and the color there.
#[derive(Clone, Copy, Debug, PartialEq, Eq, Structural)]
pub struct ControlPoint {
    pub pos: u32,
    pub color: Rgba8,
}

/// Why a list of control points was rejected.
#[derive(Clone, Copy, Debug, PartialEq, Eq, Structural)]
pub enum ColorMapError {
    /// Fewer than two control points.
    TooFewPoints,
    /// Positions, once clamped to `[0, FIXED_ONE]`, are not strictly increasing.
    Unordered,
}

/// A piecewise-linear transfer function over `[0, FIXED_ONE]`.
pub struct ColorMap {
    pub points: Vec<ControlPoint>,
}

pub open spec fn clamp_pos(p: int) -> int {
    if p > FIXED_ONE { FIXED_ONE as int } else { p }
}

/// Positions, clamped, increase strictly from one point to the next.
pub open spec fn strictly_increasing(pts: Seq<ControlPoint>) -> bool {
    forall|i: int|
        0 <= i < pts.len() - 1 ==> clamp_pos(#[trigger] pts[i].pos as int) < clamp_pos(
            pts[i + 1].pos as int,
        )
}

/// The control points a colormap keeps: positions clamped, the first moved
/// to 0 and the last to `FIXED_ONE`.
pub open spec fn normalized_points(pts: Seq<ControlPoint>) -> Seq<ControlPoint> {
    Seq::new(
        pts.len(),
        |i: int|
            ControlPoint {
                pos: if i == 0 {
                    0
                } else if i == pts.len() - 1 {
                    FIXED_ONE
                } else {
                    clamp_pos(pts[i].pos as int) as u32
                },
                color: pts[i].color,
            },
    )
}

/// Well-formed control points: at least two, from 0 to `FIXED_ONE`,
/// strictly increasing.
pub open spec fn points_wf(pts: Seq<ControlPoint>) -> bool {
    &&& pts.len() >= 2
    &&& pts[0].pos == 0
    &&& pts[pts.len() - 1].pos == FIXED_ONE
    &&& forall|i: int| 0 <= i < pts.len() - 1 ==> #[trigger] pts[i].pos < pts[i + 1].pos
    &&& forall|i: int| 0 <= i < pts.len() ==> #[trigger] pts[i].pos <= FIXED_ONE
}

/// A color given exactly as rationals: each channel is its field over
/// `den`.
#[derive(Clone, Copy, Debug, PartialEq, Eq, Structural)]
pub struct ExactRgba {
    pub r: u64,
    pub g: u64,
    pub b: u64,
    pub a: u64,
    pub den: u64,
}

impl ExactRgba {
    /// A positive denominator, and every channel within `[0, 255]`.
    pub open spec fn wf(&self) -> bool {
        &&& self.den > 0
        &&& self.r <= 255 * self.den
        &&& self.g <= 255 * self.den
        &&& self.b <= 255 * self.den
        &&& self.a <= 255 * self.den
    }

    /// The color rounded down to 8 bits per channel.
    pub fn round(&self) -> (r: Rgba8)
        requires
            self.wf(),
        ensures
            r == round_color(*self),
    {
        Rgba8 {
            r: round_u8(self.r, self.den),
            g: round_u8(self.g, self.den),
            b: round_u8(self.b, self.den),
            a: round_u8(self.a, self.den),
        }
    }
}

fn round_u8(n: u64, d: u64) -> (r: u8)
    requires
        d > 0,
        n <= 255 * d,
    ensures
        r == (n / d) as u8,
{
    let q = n / d;
    assert(q <= 255) by (nonlinear_arith) requires n <= 255 * d, d > 0, q == n / d;
    q as u8
}

pub open spec fn round_color(e: ExactRgba) -> Rgba8 {
    Rgba8 {
        r: (e.r / e.den) as u8,
        g: (e.g / e.den) as u8,
        b: (e.b / e.den) as u8,
        a: (e.a / e.den) as u8,
    }
}

/// `(p1 - p0)` times the value at `t` of the line through `(p0, a)` and
/// `(p1, b)`.
pub open spec fn lerp_num(a: int, b: int, p0: int, p1: int, t: int) -> int {
    a * (p1 - t) + b * (t - p0)
}

/// Exact color at `t` on the segment that starts at point `i`: each
/// channel is `c_i + (c_(i+1) - c_i) * (t - p_i) / (p_(i+1) - p_i)`.
pub open spec fn exact_segment(pts: Seq<ControlPoint>, i: int, t: int) -> ExactRgba {
    let p0 = pts[i].pos as int;
    let p1 = pts[i + 1].pos as int;
    let c0 = pts[i].color;
    let c1 = pts[i + 1].color;
    ExactRgba {
        r: lerp_num(c0.r as int, c1.r as int, p0, p1, t) as u64,
        g: lerp_num(c0.g as int, c1.g as int, p0, p1, t) as u64,
        b: lerp_num(c0.b as int, c1.b as int, p0, p1, t) as u64,
        a: lerp_num(c0.a as int, c1.a as int, p0, p1, t) as u64,
        den: (p1 - p0) as u64,
    }
}

/// Exact color at `t`, searching the segments from point `i` on for the
/// first whose end is at or beyond `t`.
pub open spec fn exact_from(pts: Seq<ControlPoint>, i: int, t: int) -> ExactRgba
    decreases pts.len() - i,
{
    if i >= pts.len() - 2 || t <= pts[i + 1].pos {
        exact_segment(pts, i, t)
    } else {
        exact_from(pts, i + 1, t)
    }
}

/// The transfer function at `t`, clamped to `[0, FIXED_ONE]`, exactly.
pub open spec fn exact_spec(pts: Seq<ControlPoint>, t: int) -> ExactRgba {
    exact_from(pts, 0, clamp_pos(t))
}

/// The transfer function at `t` rounded down to 8 bits per channel, as
/// the baked texture holds it.
pub open spec fn eval_spec(pts: Seq<ControlPoint>, t: int) -> Rgba8 {
    round_color(exact_spec(pts, t))
}

pub open spec fn channel(c: Rgba8, k: int) -> u8 {
    if k == 0 {
        c.r
    } else if k == 1 {
        c.g
    } else if k == 2 {
        c.b
    } else {
        c.a
    }
}

/// Position of texel `k` of `resolution` evenly spaced texels.
pub open spec fn texel_pos(k: int, resolution: int) -> int {
    if resolution <= 1 {
        0
    } else {
        k * FIXED_ONE / (resolution - 1)
    }
}

/// The RGBA8 bytes of a baked texture.
pub open spec fn baked_spec(pts: Seq<ControlPoint>, resolution: int) -> Seq<u8> {
    Seq::new(
        (4 * resolution) as nat,
        |j: int| channel(eval_spec(pts, texel_pos(j / 4, resolution)), j % 4),
    )
}

fn lerp_exact_channel(a: u8, b: u8, p0: u32, p1: u32, t: u32) -> (r: u64)
    requires
        p0 <= t <= p1,
        p0 < p1,
        p1 <= FIXED_ONE,
    ensures
        r == lerp_num(a as int, b as int, p0 as int, p1 as int, t as int),
        r <= 255 * (p1 - p0),
{
    let w0: u64 = (p1 - t) as u64;
    let w1: u64 = (t - p0) as u64;
    assert(a * w0 <= 255 * w0) by (nonlinear_arith) requires a <= 255, w0 >= 0;
    assert(b * w1 <= 255 * w1) by (nonlinear_arith) requires b <= 255, w1 >= 0;
    a as u64 * w0 + b as u64 * w1
}

fn lerp_exact(c0: Rgba8, c1: Rgba8, p0: u32, p1: u32, t: u32) -> (r: ExactRgba)
    requires
        p0 <= t <= p1,
        p0 < p1,
        p1 <= FIXED_ONE,
    ensures
        r.wf(),
        r.den == p1 - p0,
        r.r == lerp_num(c0.r as int, c1.r as int, p0 as int, p1 as int, t as int),
        r.g == lerp_num(c0.g as int, c1.g as int, p0 as int, p1 as int, t as int),
        r.b == lerp_num(c0.b as int, c1.b as int, p0 as int, p1 as int, t as int),
        r.a == lerp_num(c0.a as int, c1.a as int, p0 as int, p1 as int, t as int),
{
    ExactRgba {
        r: lerp_exact_channel(c0.r, c1.r, p0, p1, t),
        g: lerp_exact_channel(c0.g, c1.g, p0, p1, t),
        b: lerp_exact_channel(c0.b, c1.b, p0, p1, t),
        a: lerp_exact_channel(c0.a, c1.a, p0, p1, t),
        den: (p1 - p0) as u64,
    }
}

impl ColorMap {
    pub open spec fn wf(&self) -> bool {
        points_wf(self.points@)
    }

    /// Builds a colormap from control points: positions are clamped to
    /// `[0, FIXED_ONE]`, must then increase strictly, and the end points
    /// are moved to 0 and `FIXED_ONE`.
    pub fn new(points: Vec<ControlPoint>) -> (r: Result<ColorMap, ColorMapError>)
        ensures
            points@.len() < 2 ==> r == Err::<ColorMap, ColorMapError>(ColorMapError::TooFewPoints),
            points@.len() >= 2 && !strictly_increasing(points@) ==> r == Err::<
                ColorMap,
                ColorMapError,
            >(ColorMapError::Unordered),
            r is Ok <==> points@.len() >= 2 && strictly_increasing(points@),
            r matches Ok(m) ==> m.wf() && m.points@ == normalized_points(points@),
    {
        let n = points.len();
        if n < 2 {
            return Err(ColorMapError::TooFewPoints);
        }
        let mut i: usize = 0;
        while i + 1 < n
            invariant
                n == points@.len(),
                n >= 2,
                i + 1 <= n,
                forall|j: int|
                    0 <= j < i ==> clamp_pos(#[trigger] points@[j].pos as int) < clamp_pos(
                        points@[j + 1].pos as int,
                    ),
            decreases n - i,
        {
            let a = if points[i].pos > FIXED_ONE { FIXED_ONE } else { points[i].pos };
            let b = if points[i + 1].pos > FIXED_ONE { FIXED_ONE } else { points[i + 1].pos };
            if a >= b {
                return Err(ColorMapError::Unordered);
            }
            i = i + 1;
        }
        let mut out: Vec<ControlPoint> = Vec::new();
        let mut k: usize = 0;
        while k < n
            invariant
                n == points@.len(),
                n >= 2,
                k <= n,
                out@.len() == k,
                forall|j: int| 0 <= j < k ==> #[trigger] out@[j] == normalized_points(points@)[j],
            decreases n - k,
        {
            let p = points[k];
            let pos = if k == 0 {
                0
            } else if k == n - 1 {
                FIXED_ONE
            } else if p.pos > FIXED_ONE {
                FIXED_ONE
            } else {
                p.pos
            };
            out.push(ControlPoint { pos, color: p.color });
            k = k + 1;
        }
        proof {
            let np = normalized_points(points@);
            assert(out@ =~= np);
            assert forall|j: int| 0 <= j < np.len() - 1 implies #[trigger] np[j].pos < np[j + 1].pos by {
                assert(clamp_pos(points@[j].pos as int) < clamp_pos(points@[j + 1].pos as int));
            }
        }
        Ok(ColorMap { points: out })
    }

    /// The transfer function at `t`: clamped to `[0, FIXED_ONE]`, then
    /// interpolated linearly, channel by channel, between the two control
    /// points around it. The result is exact: each channel is a numerator
    /// over the segment's width.
    #[verifier::rlimit(30)]
    pub fn evaluate(&self, t: u32) -> (r: ExactRgba)
        requires
            self.wf(),
        ensures
            r.wf(),
            r == exact_spec(self.points@, t as int),
    {
        let pts = &self.points;
        let ghost s = pts@;
        let tc: u32 = if t > FIXED_ONE { FIXED_ONE } else { t };
        let n = pts.len();
        let mut i: usize = 0;
        while i + 2 < n && tc > pts[i + 1].pos
            invariant
                s == pts@,
                n == s.len(),
                points_wf(s),
                i + 2 <= n,
                s[i as int].pos <= tc,
                tc <= FIXED_ONE,
                exact_from(s, 0, tc as int) == exact_from(s, i as int, tc as int),
            decreases n - i,
        {
            assert(exact_from(s, i as int, tc as int) == exact_from(s, i + 1, tc as int));
            i = i + 1;
        }
        proof {
            assert(s[i as int].pos < s[i + 1].pos);
            assert(s[i + 1].pos <= FIXED_ONE);
            if i + 2 >= n {
                assert(i + 1 == n - 1);
            }
            assert(exact_from(s, i as int, tc as int) == exact_segment(s, i as int, tc as int));
            assert(clamp_pos(t as int) == tc);
        }
        let r = lerp_exact(pts[i].color, pts[i + 1].color, pts[i].pos, pts[i + 1].pos, tc);
        assert(r == exact_segment(s, i as int, tc as int));
        r
    }

    /// Samples the transfer function at `resolution` evenly spaced positions
    /// from 0 to `FIXED_ONE` and returns the texels as RGBA8 bytes, each
    /// channel rounded down.
    pub fn bake(&self, resolution: u32) -> (r: Vec<u8>)
        requires
            self.wf(),
        ensures
            r@ == baked_spec(self.points@, resolution as int),
    {
        let mut out: Vec<u8> = Vec::new();
        let mut k: u32 = 0;
        let ghost want = baked_spec(self.points@, resolution as int);
        while k < resolution
            invariant
                k <= resolution,
                want == baked_spec(self.points@, resolution as int),
                self.wf(),
                out@.len() == 4 * k,
                forall|j: int| 0 <= j < 4 * k ==> #[trigger] out@[j] == want[j],
            decreases resolution - k,
        {
            let pos: u32 = if resolution <= 1 {
                0
            } else {
                let q: u64 = k as u64 * FIXED_ONE as u64 / (resolution - 1) as u64;
                assert(q <= FIXED_ONE) by (nonlinear_arith)
                    requires k < resolution, resolution > 1, q as int == k as int * FIXED_ONE as int / (resolution - 1) as int, FIXED_ONE == 65536;
                q as u32
            };
            let c = self.evaluate(pos).round();
            out.push(c.r);
            out.push(c.g);
            out.push(c.b);
            out.push(c.a);
            proof {
                assert forall|j: int| 4 * k <= j < 4 * k + 4 implies #[trigger] out@[j] == want[j] by {
                    assert(j / 4 == k) by (nonlinear_arith) requires 4 * k <= j < 4 * k + 4;
                    assert(j % 4 == j - 4 * k) by (nonlinear_arith) requires 4 * k <= j < 4 * k + 4;
                }
            }
            k = k + 1;
        }
        proof {
            assert(out@ =~= want);
        }
        out
    }
}

/// A colormap baked into the bytes of a one-dimensional RGBA8 texture.
pub struct ColorMapTexture {
    pub resolution: u32,
    pub data: Vec<u8>,
}

impl ColorMapTexture {
    pub fn new(cmap: &ColorMap, resolution: u32) -> (r: ColorMapTexture)
        requires
            cmap.wf(),
        ensures
            r.resolution == resolution,
            r.data@ == baked_spec(cmap.points@, resolution as int),
    {
        ColorMapTexture { resolution, data: cmap.bake(resolution) }
    }
}

/// With only the two end points, the transfer function at the middle is
/// exactly the midpoint of the two colors, channel by channel: twice each
/// channel's numerator is the sum of the end values over the denominator.
pub proof fn lemma_two_point_midpoint(pts: Seq<ControlPoint>)
    requires
        points_wf(pts),
        pts.len() == 2,
    ensures
        exact_spec(pts, (FIXED_ONE / 2) as int).den == FIXED_ONE,
        2 * exact_spec(pts, (FIXED_ONE / 2) as int).r == (pts[0].color.r + pts[1].color.r) * FIXED_ONE,
        2 * exact_spec(pts, (FIXED_ONE / 2) as int).g == (pts[0].color.g + pts[1].color.g) * FIXED_ONE,
        2 * exact_spec(pts, (FIXED_ONE / 2) as int).b == (pts[0].color.b + pts[1].color.b) * FIXED_ONE,
        2 * exact_spec(pts, (FIXED_ONE / 2) as int).a == (pts[0].color.a + pts[1].color.a) * FIXED_ONE,
{
    let h = (FIXED_ONE / 2) as int;
    assert forall|a: int, b: int| 0 <= a <= 255 && 0 <= b <= 255 implies 2 * #[trigger] lerp_num(
        a,
        b,
        0,
        FIXED_ONE as int,
        h,
    ) == (a + b) * FIXED_ONE by {
        assert(2 * (a * (FIXED_ONE - h) + b * (h - 0)) == (a + b) * FIXED_ONE) by (nonlinear_arith)
            requires h == 32768, FIXED_ONE == 65536;
    }
    let c0 = pts[0].color;
    let c1 = pts[1].color;
    assert(2 * lerp_num(c0.r as int, c1.r as int, 0, FIXED_ONE as int, h) == (c0.r + c1.r) * FIXED_ONE);
    assert(2 * lerp_num(c0.g as int, c1.g as int, 0, FIXED_ONE as int, h) == (c0.g + c1.g) * FIXED_ONE);
    assert(2 * lerp_num(c0.b as int, c1.b as int, 0, FIXED_ONE as int, h) == (c0.b + c1.b) * FIXED_ONE);
    assert(2 * lerp_num(c0.a as int, c1.a as int, 0, FIXED_ONE as int, h) == (c0.a + c1.a) * FIXED_ONE);
    assert(0 <= lerp_num(c0.r as int, c1.r as int, 0, FIXED_ONE as int, h));
    assert(0 <= lerp_num(c0.g as int, c1.g as int, 0, FIXED_ONE as int, h));
    assert(0 <= lerp_num(c0.b as int, c1.b as int, 0, FIXED_ONE as int, h));
    assert(0 <= lerp_num(c0.a as int, c1.a as int, 0, FIXED_ONE as int, h));
}

/// Baking is a function of the colormap and the resolution alone: two
/// bakes of the same input give the same bytes.
pub proof fn lemma_bake_deterministic(
    cmap: &ColorMap,
    resolution: u32,
    first: Seq<u8>,
    second: Seq<u8>,
)
    requires
        cmap.wf(),
        first == baked_spec(cmap.points@, resolution as int),
        second == baked_spec(cmap.points@, resolution as int),
    ensures
        first == second,
        first.len() == 4 * resolution,
{
}


proof fn lemma_search_skips(pts: Seq<ControlPoint>, j: int, i: int, t: int)
    requires
        points_wf(pts),
        0 <= j <= i,
        i <= pts.len() - 2,
        forall|k: int| j < k <= i ==> #[trigger] pts[k].pos < t,
    ensures
        exact_from(pts, j, t) == exact_from(pts, i, t),
    decreases i - j,
{
    if j < i {
        assert(pts[j + 1].pos < t);
        lemma_search_skips(pts, j + 1, i, t);
    }
}

proof fn lemma_lerp_ends(a: int, b: int, p0: int, p1: int)
    requires
        0 <= p0 < p1 <= FIXED_ONE,
        0 <= a <= 255,
        0 <= b <= 255,
    ensures
        a * (p1 - p0) <= 255 * FIXED_ONE,
        b * (p1 - p0) <= 255 * FIXED_ONE,
        lerp_num(a, b, p0, p1, p0) == a * (p1 - p0),
        lerp_num(a, b, p0, p1, p1) == b * (p1 - p0),
        a * (p1 - p0) >= 0,
        b * (p1 - p0) >= 0,
        (a * (p1 - p0)) / (p1 - p0) == a,
        (b * (p1 - p0)) / (p1 - p0) == b,
{
    assert(a * (p1 - p0) + b * (p0 - p0) == a * (p1 - p0)) by (nonlinear_arith);
    assert(a * (p1 - p1) + b * (p1 - p0) == b * (p1 - p0)) by (nonlinear_arith);
    assert(a * (p1 - p0) <= 255 * FIXED_ONE) by (nonlinear_arith)
        requires 0 <= a <= 255, 0 <= p0 < p1 <= FIXED_ONE;
    assert(b * (p1 - p0) <= 255 * FIXED_ONE) by (nonlinear_arith)
        requires 0 <= b <= 255, 0 <= p0 < p1 <= FIXED_ONE;
    assert(a * (p1 - p0) >= 0) by (nonlinear_arith) requires a >= 0, p1 > p0;
    assert(b * (p1 - p0) >= 0) by (nonlinear_arith) requires b >= 0, p1 > p0;
    vstd::arithmetic::div_mod::lemma_div_multiples_vanish(a, p1 - p0);
    vstd::arithmetic::div_mod::lemma_div_multiples_vanish(b, p1 - p0);
    assert((p1 - p0) * a == a * (p1 - p0)) by (nonlinear_arith);
    assert((p1 - p0) * b == b * (p1 - p0)) by (nonlinear_arith);
}

/// The transfer function passes through every control point: at a control
/// point's position it is exactly that point's color (each numerator is
/// the color times the denominator), so the pieces of the piecewise-linear
/// function meet and it is continuous; rounding keeps the color as it is.
pub proof fn lemma_eval_at_control_point(pts: Seq<ControlPoint>, i: int)
    requires
        points_wf(pts),
        0 <= i < pts.len(),
    ensures
        exact_spec(pts, pts[i].pos as int).r == pts[i].color.r * exact_spec(pts, pts[i].pos as int).den,
        exact_spec(pts, pts[i].pos as int).g == pts[i].color.g * exact_spec(pts, pts[i].pos as int).den,
        exact_spec(pts, pts[i].pos as int).b == pts[i].color.b * exact_spec(pts, pts[i].pos as int).den,
        exact_spec(pts, pts[i].pos as int).a == pts[i].color.a * exact_spec(pts, pts[i].pos as int).den,
        eval_spec(pts, pts[i].pos as int) == pts[i].color,
{
    let t = pts[i].pos as int;
    assert(clamp_pos(t) == t);
    let j = if i == 0 { 0 } else { i - 1 };
    if i > 0 {
        assert forall|k: int| 0 < k <= j implies #[trigger] pts[k].pos < t by {
            lemma_increasing(pts, k, i);
        }
        lemma_search_skips(pts, 0, j, t);
    }
    assert(exact_from(pts, j, t) == exact_segment(pts, j, t));
    let (p0, p1) = (pts[j].pos as int, pts[j + 1].pos as int);
    let (c0, c1) = (pts[j].color, pts[j + 1].color);
    assert(p0 < p1);
    assert(p1 <= FIXED_ONE);
    lemma_lerp_ends(c0.r as int, c1.r as int, p0, p1);
    lemma_lerp_ends(c0.g as int, c1.g as int, p0, p1);
    lemma_lerp_ends(c0.b as int, c1.b as int, p0, p1);
    lemma_lerp_ends(c0.a as int, c1.a as int, p0, p1);
    let e = exact_segment(pts, j, t);
    assert(e.den == p1 - p0);
    if i == 0 {
        assert(t == p0);
        assert(e.r == c0.r * (p1 - p0));
        assert(e.g == c0.g * (p1 - p0));
        assert(e.b == c0.b * (p1 - p0));
        assert(e.a == c0.a * (p1 - p0));
    } else {
        assert(t == p1);
        assert(e.r == c1.r * (p1 - p0));
        assert(e.g == c1.g * (p1 - p0));
        assert(e.b == c1.b * (p1 - p0));
        assert(e.a == c1.a * (p1 - p0));
    }
}

proof fn lemma_increasing(pts: Seq<ControlPoint>, k: int, i: int)
    requires
        points_wf(pts),
        0 <= k < i < pts.len(),
    ensures
        pts[k].pos < pts[i].pos,
    decreases i - k,
{
    if k + 1 < i {
        lemma_increasing(pts, k + 1, i);
    }
    assert(pts[k].pos < pts[k + 1].pos);
}

} // verus!
