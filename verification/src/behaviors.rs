//! Individual color behavior steps.
//!
//! Each behavior is a pure function of the elapsed time recorded in a
//! shared [`Context`]: it yields `Some(color)` while the step's duration
//! has not elapsed and `None` once it has.

use crate::color::Rgb8;
use crate::engine::Context;
use crate::timing::{elapsed_ms, spec_elapsed_ms};
use crate::wave::{wave_channel, wave_level};
use vstd::arithmetic::div_mod::{lemma_div_by_multiple, lemma_div_is_ordered};
use vstd::arithmetic::mul::{lemma_mul_inequality, lemma_mul_is_commutative};
use vstd::prelude::*;
use vstd::wrapping::u32_specs;

verus! {

/// Whether a step's phase offset is carried forward from the end phase of
/// the prior loop iteration: never, only on the first transition, or on
/// every transition.
#[derive(Clone, Copy, Debug, PartialEq, Eq, Structural)]
pub enum AutoIncr {
    /// Keep the configured phase offset on every reinitialization.
    Never,
    /// Take the handed-off end phase once, then behave as `Never`.
    Once,
    /// Take the handed-off end phase on every reinitialization.
    Forever,
}

impl Default for AutoIncr {
    /// The default phase policy keeps the configured offset.
    fn default() -> (d: AutoIncr)
        ensures
            d == AutoIncr::Never,
    {
        AutoIncr::Never
    }
}

/// Where an oscillation starts within its wave: `Low` begins at zero
/// magnitude (a sine), `High` at full magnitude (a cosine).
#[derive(Clone, Copy, Debug, PartialEq, Eq, Structural)]
pub enum StartPhase {
    /// Begin at zero magnitude.
    Low,
    /// Begin at full magnitude.
    High,
}

/// Hold the target color for the step's duration.
#[derive(Clone, Copy, Debug, Default)]
pub struct StayColor;

/// What a hold step shows after `e` elapsed milliseconds.
pub open spec fn spec_stay_poll(ctx: Context, e: u32) -> Option<Rgb8> {
    if e >= ctx.duration_ms {
        None
    } else {
        Some(ctx.color)
    }
}

impl StayColor {
    /// A hold behavior.
    pub fn new() -> (s: StayColor)
        ensures
            s == StayColor,
    {
        StayColor
    }

    /// Sample the hold: the target color while the duration has not
    /// elapsed, `None` at and after the duration.
    pub fn poll(&self, context: &Context, now: u32, ticks_per_ms: u32) -> (out: Option<Rgb8>)
        requires
            ticks_per_ms >= 1,
        ensures
            out == spec_stay_poll(*context, spec_elapsed_ms(now, context.start_tick, ticks_per_ms)),
    {
        let e = elapsed_ms(now, context.start_tick, ticks_per_ms);
        if e >= context.duration_ms {
            None
        } else {
            Some(context.color)
        }
    }
}

/// One channel of an oscillation: the wave position is the elapsed time
/// plus the phase offset, folded into the rectified period. A zero period
/// yields a dark channel.
pub open spec fn spec_wave_channel(sp: StartPhase, c: u8, dp: u32, period_ms: u64) -> int {
    if period_ms == 0 {
        0
    } else {
        let h = period_ms as int;
        let q = (dp as int) % h;
        match sp {
            StartPhase::Low => wave_level(c, q, h),
            StartPhase::High => if 2 * q <= h {
                wave_level(c, h - 2 * q, 2 * h)
            } else {
                wave_level(c, 2 * q - h, 2 * h)
            },
        }
    }
}

/// What an oscillation step shows after `e` elapsed milliseconds.
pub open spec fn spec_cycler_poll(cy: Cycler, ctx: Context, e: u32) -> Option<Rgb8> {
    if e >= ctx.duration_ms {
        None
    } else {
        let dp = u32_specs::wrapping_add(e, ctx.phase_offset_ms);
        Some(Rgb8 {
            r: spec_wave_channel(cy.start_phase, ctx.color.r, dp, ctx.period_ms) as u8,
            g: spec_wave_channel(cy.start_phase, ctx.color.g, dp, ctx.period_ms) as u8,
            b: spec_wave_channel(cy.start_phase, ctx.color.b, dp, ctx.period_ms) as u8,
        })
    }
}

/// Scale the target color by a rectified wave of the context's period.
///
/// The wave repeats every `period_ms` milliseconds: starting low it rises
/// from dark to the full target color at the half-period and falls back;
/// starting high it begins at the full target color instead.
#[derive(Clone, Copy, Debug)]
pub struct Cycler {
    /// Whether the wave starts at zero or at full magnitude.
    pub start_phase: StartPhase,
}

impl Cycler {
    /// An oscillation that starts low.
    pub fn new() -> (c: Cycler)
        ensures
            c == (Cycler { start_phase: StartPhase::Low }),
    {
        Cycler { start_phase: StartPhase::Low }
    }

    /// Make the wave start at full magnitude.
    pub fn start_high(&mut self)
        ensures
            *final(self) == (Cycler { start_phase: StartPhase::High }),
    {
        self.start_phase = StartPhase::High;
    }

    /// Make the wave start at zero magnitude.
    pub fn start_low(&mut self)
        ensures
            *final(self) == (Cycler { start_phase: StartPhase::Low }),
    {
        self.start_phase = StartPhase::Low;
    }

    /// Sample the oscillation: the wave-scaled target color while the
    /// duration has not elapsed, `None` at and after the duration.
    pub fn poll(&self, context: &Context, now: u32, ticks_per_ms: u32) -> (out: Option<Rgb8>)
        requires
            ticks_per_ms >= 1,
            context.wf(),
        ensures
            out == spec_cycler_poll(
                *self,
                *context,
                spec_elapsed_ms(now, context.start_tick, ticks_per_ms),
            ),
    {
        let e = elapsed_ms(now, context.start_tick, ticks_per_ms);
        if e >= context.duration_ms {
            return None;
        }
        if context.period_ms == 0 {
            return Some(Rgb8 { r: 0, g: 0, b: 0 });
        }
        let dp = e.wrapping_add(context.phase_offset_ms);
        let h: u64 = context.period_ms;
        let q: u64 = (dp as u64) % h;
        let (pa, pd): (u64, u64) = match self.start_phase {
            StartPhase::Low => (q, h),
            StartPhase::High => if 2 * q <= h {
                (h - 2 * q, 2 * h)
            } else {
                (2 * q - h, 2 * h)
            },
        };
        let r = wave_channel(context.color.r, pa, pd);
        let g = wave_channel(context.color.g, pa, pd);
        let b = wave_channel(context.color.b, pa, pd);
        Some(Rgb8 { r, g, b })
    }
}

/// One linearly interpolated channel after `e` of `d` milliseconds,
/// moving from `from` toward `to` with the fractional step truncated
/// toward zero.
pub open spec fn spec_lerp_channel(from: u8, to: u8, e: u32, d: u32) -> int
    recommends
        e < d,
{
    if to >= from {
        from + ((to - from) * e) / (d as int)
    } else {
        from - ((from - to) * e) / (d as int)
    }
}

/// What an interpolation step shows after `e` elapsed milliseconds.
pub open spec fn spec_seek_poll(ctx: Context, e: u32) -> Option<Rgb8> {
    if e >= ctx.duration_ms {
        None
    } else {
        Some(Rgb8 {
            r: spec_lerp_channel(ctx.last_color.r, ctx.color.r, e, ctx.duration_ms) as u8,
            g: spec_lerp_channel(ctx.last_color.g, ctx.color.g, e, ctx.duration_ms) as u8,
            b: spec_lerp_channel(ctx.last_color.b, ctx.color.b, e, ctx.duration_ms) as u8,
        })
    }
}

/// Compute one linearly interpolated channel.
fn lerp_channel(from: u8, to: u8, e: u32, d: u32) -> (out: u8)
    requires
        e < d,
    ensures
        out == spec_lerp_channel(from, to, e, d),
{
    let ew = e as u64;
    let dw = d as u64;
    if to >= from {
        let diff = (to - from) as u64;
        proof {
            lemma_lerp_step_bounds(diff as int, ew as int, dw as int);
        }
        let step = (diff * ew) / dw;
        (from as u64 + step) as u8
    } else {
        let diff = (from - to) as u64;
        proof {
            lemma_lerp_step_bounds(diff as int, ew as int, dw as int);
        }
        let step = (diff * ew) / dw;
        (from as u64 - step) as u8
    }
}

/// The fractional step of an interpolation never exceeds the channel
/// difference it interpolates across.
proof fn lemma_lerp_step_bounds(diff: int, e: int, d: int)
    requires
        0 <= diff <= 255,
        0 <= e < d,
    ensures
        0 <= diff * e <= 255 * d,
        0 <= (diff * e) / d <= diff,
{
    lemma_mul_inequality(e, d, diff);
    lemma_mul_is_commutative(e, diff);
    lemma_mul_is_commutative(d, diff);
    assert(0 <= diff * e && diff * e <= 255 * d) by (nonlinear_arith)
        requires
            0 <= diff <= 255,
            0 <= e < d,
    ;
    lemma_div_is_ordered(0, diff * e, d);
    lemma_div_is_ordered(diff * e, diff * d, d);
    lemma_div_by_multiple(diff, d);
}

/// Move linearly from the handed-off color of the previous step toward
/// the target color over the step's duration.
#[derive(Clone, Copy, Debug)]
pub struct SeekColor;

impl SeekColor {
    /// An interpolation behavior.
    pub fn new() -> (s: SeekColor)
        ensures
            s == SeekColor,
    {
        SeekColor
    }

    /// Sample the interpolation: each channel moves from the handed-off
    /// color linearly toward the target color, `None` at and after the
    /// duration.
    pub fn poll(&self, context: &Context, now: u32, ticks_per_ms: u32) -> (out: Option<Rgb8>)
        requires
            ticks_per_ms >= 1,
        ensures
            out == spec_seek_poll(*context, spec_elapsed_ms(now, context.start_tick, ticks_per_ms)),
    {
        let e = elapsed_ms(now, context.start_tick, ticks_per_ms);
        if e >= context.duration_ms {
            return None;
        }
        let r = lerp_channel(context.last_color.r, context.color.r, e, context.duration_ms);
        let g = lerp_channel(context.last_color.g, context.color.g, e, context.duration_ms);
        let b = lerp_channel(context.last_color.b, context.color.b, e, context.duration_ms);
        Some(Rgb8 { r, g, b })
    }
}

/// What a bounded fade shows: the oscillation of its inner cycler.
pub open spec fn spec_fade_poll(f: FadeColor, ctx: Context, e: u32) -> Option<Rgb8> {
    spec_cycler_poll(f.cycler, ctx, e)
}

/// Sweep exactly one quarter of a rectified wave over the step's
/// duration: from dark to the full target color (fade up) or back
/// (fade down).
///
/// Construction pins the context's period to twice the duration, so the
/// quarter sweep covers the whole step.
#[derive(Clone, Copy, Debug)]
pub struct FadeColor {
    /// The oscillation that produces the sweep.
    pub cycler: Cycler,
}

impl FadeColor {
    /// A fade from dark up to the target color, pinning the context's
    /// period to twice its duration.
    pub fn new_fade_up(context: &mut Context) -> (f: FadeColor)
        ensures
            f == (FadeColor { cycler: Cycler { start_phase: StartPhase::Low } }),
            *final(context) == (Context {
                period_ms: (old(context).duration_ms * 2) as u64,
                ..*old(context)
            }),
            final(context).wf(),
    {
        let mut cycler = Cycler::new();
        cycler.start_low();
        context.period_ms = (context.duration_ms as u64) * 2;
        FadeColor { cycler }
    }

    /// A fade from the target color down to dark, pinning the context's
    /// period to twice its duration.
    pub fn new_fade_down(context: &mut Context) -> (f: FadeColor)
        ensures
            f == (FadeColor { cycler: Cycler { start_phase: StartPhase::High } }),
            *final(context) == (Context {
                period_ms: (old(context).duration_ms * 2) as u64,
                ..*old(context)
            }),
            final(context).wf(),
    {
        let mut cycler = Cycler::new();
        cycler.start_high();
        context.period_ms = (context.duration_ms as u64) * 2;
        FadeColor { cycler }
    }

    /// Sample the fade: the quarter-wave sweep of the inner oscillation.
    pub fn poll(&self, context: &Context, now: u32, ticks_per_ms: u32) -> (out: Option<Rgb8>)
        requires
            ticks_per_ms >= 1,
            context.wf(),
        ensures
            out == spec_fade_poll(
                *self,
                *context,
                spec_elapsed_ms(now, context.start_tick, ticks_per_ms),
            ),
    {
        self.cycler.poll(context, now, ticks_per_ms)
    }
}

} // verus!
