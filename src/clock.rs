use vstd::prelude::*;
use vstd::arithmetic::div_mod::{lemma_add_mod_noop_right, lemma_fundamental_div_mod, lemma_mod_pos_bound};

verus! {

/// One whole unit in the 16-bit fixed-point scale used for animation time,
/// colormap positions and normalized sample values.
pub const FIXED_ONE: u32 = 65536;

/// Default length of one pass through all timesteps: ten seconds.
pub const DEFAULT_ANIMATION_NANOS: u64 = 10_000_000_000;

/// Animation state: the position inside one pass through the timesteps is
/// kept in units of `1 / FIXED_ONE` nanosecond since the pass began, so the
/// normalized time in fixed point is exactly `phase / duration_ns`, rounded
/// down, and any fixed-point time can be set without loss.
pub struct AnimationClock {
    pub phase: u128,
    pub duration_ns: u64,
    pub playing: bool,
}

/// Phase reached from `phase` after `k` advances of `dt`, each wrapping at
/// `period`.
pub open spec fn phase_after(phase: int, dt: int, period: int, k: nat) -> int
    decreases k,
{
    if k == 0 {
        phase
    } else {
        (phase_after(phase, dt, period, (k - 1) as nat) + dt) % period
    }
}

impl AnimationClock {
    /// Length of one pass in the phase's units.
    pub open spec fn period(&self) -> int {
        self.duration_ns * FIXED_ONE
    }

    pub open spec fn wf(&self) -> bool {
        self.duration_ns > 0 && self.phase < self.period()
    }

    /// The normalized animation time in fixed point.
    pub open spec fn time_spec(&self) -> int {
        self.phase as int / self.duration_ns as int
    }

    /// A playing clock at time zero; a zero duration falls back to the default.
    pub fn new(duration_ns: Option<u64>) -> (r: AnimationClock)
        ensures
            r.wf(),
            r.phase == 0,
            r.time_spec() == 0,
            r.playing,
            r.duration_ns == match duration_ns {
                Some(d) => if d > 0 { d } else { DEFAULT_ANIMATION_NANOS },
                None => DEFAULT_ANIMATION_NANOS,
            },
    {
        let d = match duration_ns {
            Some(d) => if d > 0 { d } else { DEFAULT_ANIMATION_NANOS },
            None => DEFAULT_ANIMATION_NANOS,
        };
        assert(0int / (d as int) == 0) by (nonlinear_arith) requires d > 0;
        AnimationClock { phase: 0, duration_ns: d, playing: true }
    }

    /// Moves the animation forward by `dt_ns` nanoseconds when it is playing
    /// and the volume has more than one timestep, wrapping at the end of a
    /// pass.
    pub fn advance(&mut self, dt_ns: u64, timesteps: u32)
        requires
            old(self).wf(),
        ensures
            final(self).wf(),
            final(self).duration_ns == old(self).duration_ns,
            final(self).playing == old(self).playing,
            final(self).phase == if old(self).playing && timesteps > 1 {
                (old(self).phase + dt_ns * FIXED_ONE) % old(self).period()
            } else {
                old(self).phase as int
            },
    {
        if self.playing && timesteps > 1 {
            let period: u128 = self.duration_ns as u128 * FIXED_ONE as u128;
            let sum: u128 = self.phase + dt_ns as u128 * FIXED_ONE as u128;
            let p: u128 = sum % period;
            proof {
                lemma_mod_pos_bound(sum as int, period as int);
            }
            self.phase = p;
        }
    }

    /// Moves the animation to a fixed-point time in `[0, FIXED_ONE)`.
    pub fn set_time(&mut self, time: u32)
        requires
            old(self).wf(),
            time < FIXED_ONE,
        ensures
            final(self).wf(),
            final(self).time_spec() == time,
            final(self).phase == time * old(self).duration_ns,
            final(self).duration_ns == old(self).duration_ns,
            final(self).playing == old(self).playing,
    {
        let d = self.duration_ns;
        proof {
            assert(time * d < d * FIXED_ONE) by (nonlinear_arith)
                requires time < FIXED_ONE, d > 0;
            assert((time * d) / (d as int) == time) by (nonlinear_arith) requires d > 0;
        }
        self.phase = time as u128 * d as u128;
    }

    /// The normalized animation time `phase / duration` in fixed point,
    /// rounded down; always below `FIXED_ONE`.
    pub fn time(&self) -> (r: u32)
        requires
            self.wf(),
        ensures
            r == self.time_spec(),
            r < FIXED_ONE,
    {
        let r: u128 = self.phase / (self.duration_ns as u128);
        proof {
            let d = self.duration_ns as int;
            let n = self.phase as int;
            lemma_fundamental_div_mod(n, d);
            lemma_mod_pos_bound(n, d);
            assert(r < FIXED_ONE) by (nonlinear_arith)
                requires d * (n / d) <= n, n < d * FIXED_ONE, d > 0, r as int == n / d;
        }
        r as u32
    }
}

/// Advancing a playing clock of a multi-timestep volume `k` times by `dt`
/// from time zero leaves the phase at `k * dt` modulo the duration: the
/// normalized time is the fractional part of `k * dt / duration`, which
/// lies in `[0, 1)`.
pub proof fn lemma_time_after_advances(dt: int, duration: int, k: nat)
    requires
        dt >= 0,
        duration > 0,
    ensures
        phase_after(0, dt, duration, k) == (k * dt) % duration,
        phase_after(0, dt, duration, k) == k * dt - duration * ((k * dt) / duration),
        0 <= phase_after(0, dt, duration, k) < duration,
    decreases k,
{
    let d = duration;
    let kd: int = k * dt;
    if k == 0 {
        assert(kd == 0) by (nonlinear_arith) requires k == 0, kd == k * dt;
        assert(0int % d == 0) by (nonlinear_arith) requires d > 0;
    } else {
        lemma_time_after_advances(dt, duration, (k - 1) as nat);
        let prev: int = ((k - 1) as nat) * dt;
        lemma_add_mod_noop_right(dt, prev, d);
        assert(prev + dt == kd) by (nonlinear_arith) requires prev == ((k - 1) as nat) * dt, k > 0, kd == k * dt;
        assert(phase_after(0, dt, d, k) == (prev % d + dt) % d);
    }
    lemma_fundamental_div_mod(kd, d);
    lemma_mod_pos_bound(kd, d);
}

/// Each call of `advance` on a playing clock of a multi-timestep volume
/// moves the phase exactly as one step of `phase_after`.
pub proof fn lemma_advance_step(before: AnimationClock, after: AnimationClock, dt: u64)
    requires
        before.wf(),
        before.playing,
        after.phase == (before.phase + dt * FIXED_ONE) % before.period(),
    ensures
        after.phase == phase_after(before.phase as int, dt * FIXED_ONE, before.period(), 1),
{
    assert(phase_after(before.phase as int, dt * FIXED_ONE, before.period(), 0) == before.phase);
}

/// From time zero, `k` advances of `dt` nanoseconds with a pass of
/// `duration` nanoseconds leave the clock at time
/// `FIXED_ONE * ((k * dt) mod duration) / duration` (rounded down): the
/// fractional part of `k * dt / duration` in fixed point, below `FIXED_ONE`.
pub proof fn lemma_clock_time_after_advances(dt: int, duration: int, k: nat)
    requires
        dt >= 0,
        duration > 0,
    ensures
        phase_after(0, dt * FIXED_ONE, duration * FIXED_ONE, k) == ((k * dt) % duration) * FIXED_ONE,
        phase_after(0, dt * FIXED_ONE, duration * FIXED_ONE, k) / duration == ((k * dt) % duration)
            * FIXED_ONE / duration,
        ((k * dt) % duration) * FIXED_ONE / duration < FIXED_ONE,
{
    let one = FIXED_ONE as int;
    assert(dt * one >= 0) by (nonlinear_arith) requires dt >= 0, one > 0;
    assert(duration * one > 0) by (nonlinear_arith) requires duration > 0, one > 0;
    lemma_time_after_advances(dt * one, duration * one, k);
    let x: int = k * dt;
    assert(k * (dt * one) == x * one) by (nonlinear_arith) requires x == k * dt;
    lemma_fundamental_div_mod(x, duration);
    lemma_mod_pos_bound(x, duration);
    let q = x / duration;
    let r = x % duration;
    assert(x * one == q * (duration * one) + r * one) by (nonlinear_arith)
        requires x == duration * q + r;
    assert(0 <= r * one < duration * one) by (nonlinear_arith)
        requires 0 <= r < duration, one > 0;
    vstd::arithmetic::div_mod::lemma_fundamental_div_mod_converse(x * one, duration * one, q, r * one);
    assert(r * one / duration < one) by (nonlinear_arith)
        requires 0 <= r < duration, one > 0, duration > 0;
}

} // verus!
