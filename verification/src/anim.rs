//! Time-driven value easing.
//!
//! An [`Interpolate`] holds the current eased value, its target, a
//! duration, an easing curve and a playback mode. A per-frame tick
//! advances the elapsed time, clamps it into a phase `t` according to the
//! mode, applies the easing curve, and linearly interpolates between start
//! and target. Delivering a new target while in the clamp-and-stop mode
//! restarts the motion from the current eased value, producing a smooth
//! retarget instead of a jump.

use vstd::prelude::*;

use crate::fixed::{
    fx_add, fx_add_s, fx_div, fx_div_s, fx_in_range, fx_mul, fx_mul_s, fx_rem_nonneg, fx_sub,
    fx_sub_s, FX_MAX, FX_SCALE,
};
use crate::signals::Rgba;
use crate::vec2::{vadd_s, vmul_s, vsub_s, Vec2};

verus! {

/// The easing curves the animation driver offers.
#[derive(Clone, Copy, Debug, PartialEq, Eq, Structural)]
pub enum Easing {
    Linear,
    QuadIn,
    QuadOut,
    SmoothStep,
}

impl Easing {
    /// The eased phase for a raw phase `t` (fixed-point, 0 to 1).
    pub open spec fn apply_spec(self, t: int) -> int {
        match self {
            Easing::Linear => t,
            Easing::QuadIn => fx_mul_s(t, t),
            Easing::QuadOut => fx_sub_s(
                FX_SCALE as int,
                fx_mul_s(fx_sub_s(FX_SCALE as int, t), fx_sub_s(FX_SCALE as int, t)),
            ),
            Easing::SmoothStep => fx_sub_s(
                fx_mul_s(30000, fx_mul_s(t, t)),
                fx_mul_s(20000, fx_mul_s(fx_mul_s(t, t), t)),
            ),
        }
    }

    /// Apply the easing curve.
    pub fn apply(self, t: i64) -> (r: i64)
        ensures
            r as int == self.apply_spec(t as int),
    {
        match self {
            Easing::Linear => t,
            Easing::QuadIn => fx_mul(t, t),
            Easing::QuadOut => fx_sub(
                FX_SCALE,
                fx_mul(fx_sub(FX_SCALE, t), fx_sub(FX_SCALE, t)),
            ),
            Easing::SmoothStep => fx_sub(
                fx_mul(30000, fx_mul(t, t)),
                fx_mul(20000, fx_mul(fx_mul(t, t), t)),
            ),
        }
    }
}

/// Every easing curve maps phase 1 exactly to 1.
pub proof fn lemma_ease_one(e: Easing)
    ensures
        e.apply_spec(FX_SCALE as int) == FX_SCALE as int,
{
    crate::fixed::lemma_tdiv_exact(FX_SCALE as int, FX_SCALE as int);
    crate::fixed::lemma_tdiv_exact(0, FX_SCALE as int);
    crate::fixed::lemma_tdiv_exact(30000, FX_SCALE as int);
    crate::fixed::lemma_tdiv_exact(20000, FX_SCALE as int);
    assert(fx_mul_s(FX_SCALE as int, FX_SCALE as int) == FX_SCALE as int);
    assert(fx_sub_s(FX_SCALE as int, FX_SCALE as int) == 0);
    assert(fx_mul_s(0, 0) == 0);
    assert(fx_mul_s(30000, FX_SCALE as int) == 30000);
    assert(fx_mul_s(20000, FX_SCALE as int) == 20000);
}

/// A value the animation driver can interpolate component-wise.
pub trait Lerp: Sized + Copy {
    /// Whether a start/target pair is inside the range where
    /// interpolation is exact at the endpoints.
    spec fn lerp_ok(a: Self, b: Self) -> bool;

    /// The interpolated value at eased phase `t`.
    spec fn lerp_spec(a: Self, b: Self, t: int) -> Self;

    /// Interpolate between `a` and `b` at phase `t`.
    fn lerp(a: Self, b: Self, t: i64) -> (r: Self)
        ensures
            r == Self::lerp_spec(a, b, t as int),
    ;

    /// At phase 1 interpolation lands exactly on the target.
    proof fn lemma_lerp_one(a: Self, b: Self)
        requires
            Self::lerp_ok(a, b),
        ensures
            Self::lerp_spec(a, b, FX_SCALE as int) == b,
    ;
}

impl Lerp for i64 {
    open spec fn lerp_ok(a: i64, b: i64) -> bool {
        fx_in_range(a as int) && fx_in_range(b as int) && fx_in_range(b as int - a as int)
    }

    open spec fn lerp_spec(a: i64, b: i64, t: int) -> i64 {
        fx_add_s(a as int, fx_mul_s(t, fx_sub_s(b as int, a as int))) as i64
    }

    fn lerp(a: i64, b: i64, t: i64) -> (r: i64) {
        fx_add(a, fx_mul(t, fx_sub(b, a)))
    }

    proof fn lemma_lerp_one(a: i64, b: i64) {
        crate::fixed::lemma_tdiv_exact(b as int - a as int, FX_SCALE as int);
        assert(fx_sub_s(b as int, a as int) == b as int - a as int);
        assert(fx_mul_s(FX_SCALE as int, b as int - a as int) == b as int - a as int);
    }
}

impl Lerp for Vec2 {
    open spec fn lerp_ok(a: Vec2, b: Vec2) -> bool {
        <i64 as Lerp>::lerp_ok(a.x, b.x) && <i64 as Lerp>::lerp_ok(a.y, b.y)
    }

    open spec fn lerp_spec(a: Vec2, b: Vec2, t: int) -> Vec2 {
        Vec2 {
            x: <i64 as Lerp>::lerp_spec(a.x, b.x, t),
            y: <i64 as Lerp>::lerp_spec(a.y, b.y, t),
        }
    }

    fn lerp(a: Vec2, b: Vec2, t: i64) -> (r: Vec2) {
        Vec2 { x: <i64 as Lerp>::lerp(a.x, b.x, t), y: <i64 as Lerp>::lerp(a.y, b.y, t) }
    }

    proof fn lemma_lerp_one(a: Vec2, b: Vec2) {
        <i64 as Lerp>::lemma_lerp_one(a.x, b.x);
        <i64 as Lerp>::lemma_lerp_one(a.y, b.y);
    }
}

impl Lerp for Rgba {
    open spec fn lerp_ok(a: Rgba, b: Rgba) -> bool {
        &&& <i64 as Lerp>::lerp_ok(a.red, b.red)
        &&& <i64 as Lerp>::lerp_ok(a.green, b.green)
        &&& <i64 as Lerp>::lerp_ok(a.blue, b.blue)
        &&& <i64 as Lerp>::lerp_ok(a.alpha, b.alpha)
    }

    open spec fn lerp_spec(a: Rgba, b: Rgba, t: int) -> Rgba {
        Rgba {
            red: <i64 as Lerp>::lerp_spec(a.red, b.red, t),
            green: <i64 as Lerp>::lerp_spec(a.green, b.green, t),
            blue: <i64 as Lerp>::lerp_spec(a.blue, b.blue, t),
            alpha: <i64 as Lerp>::lerp_spec(a.alpha, b.alpha, t),
        }
    }

    fn lerp(a: Rgba, b: Rgba, t: i64) -> (r: Rgba) {
        Rgba {
            red: <i64 as Lerp>::lerp(a.red, b.red, t),
            green: <i64 as Lerp>::lerp(a.green, b.green, t),
            blue: <i64 as Lerp>::lerp(a.blue, b.blue, t),
            alpha: <i64 as Lerp>::lerp(a.alpha, b.alpha, t),
        }
    }

    proof fn lemma_lerp_one(a: Rgba, b: Rgba) {
        <i64 as Lerp>::lemma_lerp_one(a.red, b.red);
        <i64 as Lerp>::lemma_lerp_one(a.green, b.green);
        <i64 as Lerp>::lemma_lerp_one(a.blue, b.blue);
        <i64 as Lerp>::lemma_lerp_one(a.alpha, b.alpha);
    }
}

/// The playback mode of an animation.
#[derive(Clone, Copy, Debug, PartialEq, Eq, Structural)]
pub enum InterpolateMode {
    /// Clamp the phase to 1 and stop, awaiting external target pushes.
    Once,
    /// Wrap the phase: a 0 to 1 sawtooth.
    Repeat,
    /// Bounce the phase: a 0 to 1 to 0 triangle wave.
    Looping,
}

/// The clamped raw phase for an elapsed time under a mode.
pub open spec fn phase_spec(mode: InterpolateMode, elapsed: int, duration: int) -> int {
    match mode {
        InterpolateMode::Once => if duration <= 0 || elapsed >= duration {
            FX_SCALE as int
        } else {
            fx_div_s(elapsed, duration)
        },
        InterpolateMode::Repeat => if duration <= 0 {
            0
        } else {
            fx_div_s(elapsed % duration, duration)
        },
        InterpolateMode::Looping => if duration <= 0 {
            0
        } else {
            let u = elapsed % (2 * duration);
            if u <= duration {
                fx_div_s(u, duration)
            } else {
                fx_div_s(2 * duration - u, duration)
            }
        },
    }
}

/// A per-component animation driver.
#[derive(Clone, Copy, Debug)]
pub struct Interpolate<V> {
    /// The easing curve applied to the phase.
    pub easing: Easing,
    /// The playback mode.
    pub mode: InterpolateMode,
    /// The value the motion started from.
    pub from: V,
    /// The target value.
    pub to: V,
    /// The current eased value, written into the owning component.
    pub current: V,
    /// Time since the motion started, fixed-point seconds.
    pub elapsed: i64,
    /// The length of one phase, fixed-point seconds.
    pub duration: i64,
}

/// The state after one tick advanced the elapsed time by `dt`.
pub open spec fn tick_spec<V: Lerp>(i: Interpolate<V>, dt: int) -> Interpolate<V> {
    let elapsed = fx_add_s(i.elapsed as int, dt);
    let t = phase_spec(i.mode, elapsed, i.duration as int);
    let eased = i.easing.apply_spec(t);
    Interpolate {
        current: V::lerp_spec(i.from, i.to, eased),
        elapsed: elapsed as i64,
        ..i
    }
}

impl<V: Lerp> Interpolate<V> {
    /// Whether the timing state is usable: time runs forward and the
    /// duration is representable.
    pub open spec fn wf(self) -> bool {
        0 <= self.elapsed && 0 <= self.duration <= FX_MAX
    }

    /// A driver in clamp-and-stop mode, parked on `value` until a target
    /// arrives.
    pub fn new(easing: Easing, value: V, duration: i64) -> (r: Interpolate<V>)
        requires
            0 <= duration <= FX_MAX,
        ensures
            r == (Interpolate {
                easing,
                mode: InterpolateMode::Once,
                from: value,
                to: value,
                current: value,
                elapsed: 0,
                duration,
            }),
            r.wf(),
    {
        Interpolate {
            easing,
            mode: InterpolateMode::Once,
            from: value,
            to: value,
            current: value,
            elapsed: 0,
            duration,
        }
    }

    /// A driver running a 0 to 1 sawtooth between `from` and `to`.
    pub fn repeat(easing: Easing, from: V, to: V, duration: i64) -> (r: Interpolate<V>)
        requires
            0 <= duration <= FX_MAX,
        ensures
            r == (Interpolate {
                easing,
                mode: InterpolateMode::Repeat,
                from,
                to,
                current: from,
                elapsed: 0,
                duration,
            }),
            r.wf(),
    {
        Interpolate {
            easing,
            mode: InterpolateMode::Repeat,
            from,
            to,
            current: from,
            elapsed: 0,
            duration,
        }
    }

    /// A driver running a 0 to 1 to 0 triangle wave between `from` and
    /// `to`.
    pub fn looping(easing: Easing, from: V, to: V, duration: i64) -> (r: Interpolate<V>)
        requires
            0 <= duration <= FX_MAX,
        ensures
            r == (Interpolate {
                easing,
                mode: InterpolateMode::Looping,
                from,
                to,
                current: from,
                elapsed: 0,
                duration,
            }),
            r.wf(),
    {
        Interpolate {
            easing,
            mode: InterpolateMode::Looping,
            from,
            to,
            current: from,
            elapsed: 0,
            duration,
        }
    }

    /// The current eased value.
    pub fn get(&self) -> (r: V)
        ensures
            r == self.current,
    {
        self.current
    }

    /// Deliver a new target: the motion restarts from the current eased
    /// value, producing a smooth retarget rather than a jump.
    pub fn interpolate_to(&mut self, to: V)
        ensures
            *final(self) == (Interpolate {
                from: old(self).current,
                to,
                elapsed: 0,
                ..*old(self)
            }),
            old(self).wf() ==> final(self).wf(),
    {
        self.from = self.current;
        self.to = to;
        self.elapsed = 0;
    }

    /// Advance the animation by the frame delta `dt` and refresh the
    /// eased value.
    pub fn tick(&mut self, dt: i64)
        requires
            dt >= 0,
            old(self).wf(),
        ensures
            *final(self) == tick_spec(*old(self), dt as int),
            final(self).wf(),
    {
        self.elapsed = fx_add(self.elapsed, dt);
        let t: i64 = match self.mode {
            InterpolateMode::Once => {
                if self.duration <= 0 || self.elapsed >= self.duration {
                    FX_SCALE
                } else {
                    fx_div(self.elapsed, self.duration)
                }
            },
            InterpolateMode::Repeat => {
                if self.duration <= 0 {
                    0
                } else {
                    fx_div(fx_rem_nonneg(self.elapsed, self.duration), self.duration)
                }
            },
            InterpolateMode::Looping => {
                if self.duration <= 0 {
                    0
                } else {
                    let u = fx_rem_nonneg(self.elapsed, self.duration + self.duration);
                    if u <= self.duration {
                        fx_div(u, self.duration)
                    } else {
                        fx_div(self.duration + self.duration - u, self.duration)
                    }
                }
            },
        };
        let eased = self.easing.apply(t);
        self.current = V::lerp(self.from, self.to, eased);
    }
}

/// Interpolation boundary: in clamp-and-stop mode, once the elapsed time
/// has reached the duration, the eased value is exactly the target, and
/// every further tick leaves it there — the resulting state again
/// satisfies this lemma's premises, so ticks change nothing but the
/// elapsed time.
pub proof fn lemma_once_mode_completion<V: Lerp>(i: Interpolate<V>, dt: int)
    requires
        i.wf(),
        i.mode is Once,
        dt >= 0,
        V::lerp_ok(i.from, i.to),
        i.elapsed >= i.duration,
    ensures
        tick_spec(i, dt).current == i.to,
        tick_spec(i, dt).to == i.to,
        tick_spec(i, dt).from == i.from,
        tick_spec(i, dt).mode is Once,
        tick_spec(i, dt).duration == i.duration,
        tick_spec(i, dt).elapsed >= tick_spec(i, dt).duration,
        tick_spec(i, dt).wf(),
{
    let elapsed = fx_add_s(i.elapsed as int, dt);
    assert(elapsed >= i.duration as int);
    assert(phase_spec(i.mode, elapsed, i.duration as int) == FX_SCALE as int);
    lemma_ease_one(i.easing);
    V::lemma_lerp_one(i.from, i.to);
}

} // verus!
