use vstd::prelude::*;
use crate::clock::FIXED_ONE;
use crate::cmap::Rgba8;

verus! {

/// Accumulated opacity at which a ray stops: 0.99 of `FIXED_ONE`.
pub const EARLY_STOP_ALPHA: u32 = 64880;

/// Color and opacity gathered along a ray, in units of `FIXED_ONE`, with
/// the color premultiplied by opacity.
#[derive(Clone, Copy, Debug, PartialEq, Eq, Structural)]
pub struct Accum {
    pub r: u32,
    pub g: u32,
    pub b: u32,
    pub alpha: u32,
}

impl Accum {
    pub open spec fn wf(&self) -> bool {
        self.r <= self.alpha && self.g <= self.alpha && self.b <= self.alpha && self.alpha
            <= FIXED_ONE
    }

    pub fn empty() -> (r: Accum)
        ensures
            r.wf(),
            r == (Accum { r: 0, g: 0, b: 0, alpha: 0 }),
    {
        Accum { r: 0, g: 0, b: 0, alpha: 0 }
    }
}

/// Opacity of one sample after scaling by `distance_scale` (a fraction of
/// `FIXED_ONE`), capped at `FIXED_ONE`.
pub open spec fn sample_alpha(a: int, distance_scale: int) -> int {
    if a * distance_scale / 255 > FIXED_ONE {
        FIXED_ONE as int
    } else {
        a * distance_scale / 255
    }
}

/// What one channel gains: the remaining transparency times the sample's
/// channel times its opacity.
pub open spec fn gain(remaining: int, channel: int, alpha: int) -> int {
    remaining * channel * alpha / (255 * FIXED_ONE)
}

/// One front-to-back compositing step.
pub open spec fn step_spec(acc: Accum, s: Rgba8, distance_scale: int) -> Accum {
    let a = sample_alpha(s.a as int, distance_scale);
    let rem = FIXED_ONE - acc.alpha;
    Accum {
        r: (acc.r + gain(rem, s.r as int, a)) as u32,
        g: (acc.g + gain(rem, s.g as int, a)) as u32,
        b: (acc.b + gain(rem, s.b as int, a)) as u32,
        alpha: (acc.alpha + gain(rem, 255, a)) as u32,
    }
}

proof fn lemma_gain_bounds(rem: int, c: int, a: int)
    requires
        0 <= rem <= FIXED_ONE,
        0 <= c <= 255,
        0 <= a <= FIXED_ONE,
    ensures
        0 <= gain(rem, c, a) <= gain(rem, 255, a) <= rem,
{
    let d = 255 * FIXED_ONE as int;
    assert(0 <= rem * c * a <= rem * 255 * a) by (nonlinear_arith)
        requires 0 <= rem, 0 <= c <= 255, 0 <= a;
    vstd::arithmetic::div_mod::lemma_div_is_ordered(rem * c * a, rem * 255 * a, d);
    assert(rem * 255 * a <= rem * d) by (nonlinear_arith)
        requires 0 <= rem, a <= FIXED_ONE, d == 255 * FIXED_ONE;
    vstd::arithmetic::div_mod::lemma_div_is_ordered(rem * 255 * a, rem * d, d);
    assert(rem * d / d == rem) by (nonlinear_arith) requires d > 0;
    assert(0 <= rem * c * a / d) by (nonlinear_arith) requires rem * c * a >= 0, d > 0;
}

fn gain_exec(rem: u32, c: u32, a: u32) -> (r: u32)
    requires
        rem <= FIXED_ONE,
        c <= 255,
        a <= FIXED_ONE,
    ensures
        r == gain(rem as int, c as int, a as int),
        r <= gain(rem as int, 255, a as int),
        gain(rem as int, 255, a as int) <= rem,
{
    proof {
        lemma_gain_bounds(rem as int, c as int, a as int);
        assert(rem * c <= FIXED_ONE * 255) by (nonlinear_arith) requires rem <= FIXED_ONE, c <= 255;
        assert(rem * c * a <= FIXED_ONE * 255 * FIXED_ONE) by (nonlinear_arith)
            requires rem * c <= FIXED_ONE * 255, a <= FIXED_ONE, rem * c >= 0;
    }
    let num: u64 = rem as u64 * c as u64 * a as u64;
    (num / (255 * FIXED_ONE as u64)) as u32
}

/// Composites one sample behind what the ray has gathered so far.
pub fn composite_step(acc: Accum, s: Rgba8, distance_scale: u32) -> (r: Accum)
    requires
        acc.wf(),
    ensures
        r.wf(),
        r == step_spec(acc, s, distance_scale as int),
{
    assert(s.a * distance_scale <= 255 * 0xffff_ffff) by (nonlinear_arith)
        requires s.a <= 255, distance_scale <= 0xffff_ffff;
    let scaled: u64 = s.a as u64 * distance_scale as u64 / 255;
    let a: u32 = if scaled > FIXED_ONE as u64 { FIXED_ONE } else { scaled as u32 };
    let rem = FIXED_ONE - acc.alpha;
    let gr = gain_exec(rem, s.r as u32, a);
    let gg = gain_exec(rem, s.g as u32, a);
    let gb = gain_exec(rem, s.b as u32, a);
    let ga = gain_exec(rem, 255, a);
    Accum { r: acc.r + gr, g: acc.g + gg, b: acc.b + gb, alpha: acc.alpha + ga }
}

/// Result of marching through `samples` front to back, stopping once the
/// gathered opacity reaches `EARLY_STOP_ALPHA`.
pub open spec fn march_spec(acc: Accum, samples: Seq<Rgba8>, distance_scale: int) -> Accum
    decreases samples.len(),
{
    if samples.len() == 0 || acc.alpha >= EARLY_STOP_ALPHA {
        acc
    } else {
        march_spec(step_spec(acc, samples[0], distance_scale), samples.drop_first(), distance_scale)
    }
}

/// Marches a ray through the samples it meets, nearest first.
pub fn march(samples: &Vec<Rgba8>, distance_scale: u32) -> (r: Accum)
    ensures
        r.wf(),
        r == march_spec(Accum { r: 0, g: 0, b: 0, alpha: 0 }, samples@, distance_scale as int),
{
    let mut acc = Accum::empty();
    let mut i: usize = 0;
    assert(samples@.skip(0) =~= samples@);
    while i < samples.len() && acc.alpha < EARLY_STOP_ALPHA
        invariant
            i <= samples@.len(),
            acc.wf(),
            march_spec(Accum { r: 0, g: 0, b: 0, alpha: 0 }, samples@, distance_scale as int)
                == march_spec(acc, samples@.skip(i as int), distance_scale as int),
        decreases samples@.len() - i,
    {
        proof {
            let rest = samples@.skip(i as int);
            assert(rest[0] == samples@[i as int]);
            assert(rest.drop_first() =~= samples@.skip(i + 1));
        }
        acc = composite_step(acc, samples[i], distance_scale);
        i = i + 1;
    }
    proof {
        if i == samples@.len() {
            assert(samples@.skip(i as int).len() == 0);
        }
    }
    acc
}

/// Final color of a pixel: the gathered color over the background, in
/// units of `FIXED_ONE` per channel.
pub open spec fn over_background(acc: Accum, bg: Rgba8) -> (int, int, int) {
    let rem = FIXED_ONE - acc.alpha;
    (
        acc.r + rem * bg.r as int / 255,
        acc.g + rem * bg.g as int / 255,
        acc.b + rem * bg.b as int / 255,
    )
}

fn share(rem: u32, c: u8) -> (r: u32)
    requires
        rem <= FIXED_ONE,
    ensures
        r == rem * c as int / 255,
        r <= rem,
{
    assert(rem * c <= rem * 255) by (nonlinear_arith) requires c <= 255, rem >= 0;
    assert(rem * c <= FIXED_ONE * 255) by (nonlinear_arith) requires c <= 255, rem <= FIXED_ONE;
    proof {
        let (ri, ci) = (rem as int, c as int);
        vstd::arithmetic::div_mod::lemma_div_is_ordered(ri * ci, ri * 255, 255);
        assert(ri * 255 / 255 == ri) by (nonlinear_arith);
    }
    (rem * c as u32) / 255
}

pub fn blend_over(acc: Accum, bg: Rgba8) -> (r: (u32, u32, u32))
    requires
        acc.wf(),
    ensures
        (r.0 as int, r.1 as int, r.2 as int) == over_background(acc, bg),
        r.0 <= FIXED_ONE && r.1 <= FIXED_ONE && r.2 <= FIXED_ONE,
{
    let rem = FIXED_ONE - acc.alpha;
    let r = acc.r + share(rem, bg.r);
    let g = acc.g + share(rem, bg.g);
    let b = acc.b + share(rem, bg.b);
    (r, g, b)
}

/// A saturated ray hides the background: once the gathered opacity is
/// whole, the pixel is the gathered color over any background.
pub proof fn lemma_saturated_hides_background(acc: Accum, bg1: Rgba8, bg2: Rgba8)
    requires
        acc.wf(),
        acc.alpha == FIXED_ONE,
    ensures
        over_background(acc, bg1) == over_background(acc, bg2),
        over_background(acc, bg1) == (acc.r as int, acc.g as int, acc.b as int),
{
}

} // verus!
