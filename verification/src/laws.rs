//! The engine's governing properties, stated and proved once over the
//! specification functions that the executable contracts are written in.

use crate::behaviors::{
    spec_cycler_poll, spec_fade_poll, spec_wave_channel, Cycler, FadeColor, StartPhase,
};
use crate::color::{spec_black, Rgb8};
use crate::engine::{
    spec_action_poll, spec_action_reinit, spec_calc_end_phase, spec_handoff, spec_inner_poll,
    spec_reinit, spec_sequence_poll, spec_seeded, Action, Context, InnerAction, LoopBehavior,
    Sequence,
};
use crate::timing::{spec_elapsed_ms, spec_end_phase};
use crate::wave::{
    lemma_wave_level_bounds, lemma_wave_level_ends, lemma_wave_level_falling,
    lemma_wave_level_max_at_midpoint, lemma_wave_level_peak, lemma_wave_level_rising, wave_level,
};
use vstd::arithmetic::div_mod::{lemma_mod_self_0, lemma_small_mod};
use vstd::prelude::*;

verus! {

/// A hold step polled under the run-once policy shows its target color
/// at every tick before its duration has elapsed, and nothing at or
/// after it — and polling does not change the step.
pub proof fn lemma_hold_invariant(a: Action, now: u32, ticks_per_ms: u32)
    requires
        ticks_per_ms >= 1,
        a.wf(),
        a.action.kind is Static,
        a.behavior is OneShot,
    ensures
        spec_action_poll(a, now, ticks_per_ms).0 == a,
        spec_action_poll(a, now, ticks_per_ms).1 == (if spec_elapsed_ms(
            now,
            a.action.context.start_tick,
            ticks_per_ms,
        ) < a.action.context.duration_ms {
            Some(a.action.context.color)
        } else {
            None::<Rgb8>
        }),
{
}

/// Every behavior shows a color exactly while the elapsed time is below
/// the step's duration: no step goes dark early, none overstays.
pub proof fn lemma_step_live_iff_within_duration(ia: InnerAction, e: u32)
    requires
        ia.wf(),
    ensures
        spec_inner_poll(ia, e) is Some <==> e < ia.context.duration_ms,
{
}

/// The wave position an oscillation samples at elapsed time `e` when its
/// phase offset is zero and `e` has not wrapped past the period.
proof fn lemma_wave_position(e: u32, period_ms: u64)
    requires
        1 <= period_ms,
        e < period_ms,
    ensures
        (e as int) % (period_ms as int) == e as int,
{
    lemma_small_mod(e as nat, period_ms as nat);
}

/// A sine-mode channel is non-decreasing over the first quarter of the
/// rectified cycle: two sample times on the rising half, in order, give
/// levels in the same order.
pub proof fn lemma_oscillate_channel_rising(c: u8, e1: u32, e2: u32, period_ms: u64)
    requires
        1 <= period_ms,
        e1 <= e2,
        e1 + e2 <= period_ms,
    ensures
        spec_wave_channel(StartPhase::Low, c, e1, period_ms) <= spec_wave_channel(
            StartPhase::Low,
            c,
            e2,
            period_ms,
        ),
{
    let h = period_ms as int;
    lemma_wave_position(e1, period_ms);
    if e2 < period_ms {
        lemma_wave_position(e2, period_ms);
        lemma_wave_level_rising(c, e1 as int, e2 as int, h);
    } else {
        // Only possible with e1 == 0 and e2 == period: both ends are dark.
        assert(e2 as int % h == 0) by {
            lemma_small_mod(0nat, period_ms as nat);
            assert(e2 as int == h);
            assert(h % h == 0) by {
                lemma_mod_self_0(h);
            }
        }
        lemma_wave_level_ends(c, h);
    }
}

/// A sine-mode channel is non-increasing over the second quarter of the
/// rectified cycle: two sample times on the falling half, in order, give
/// levels in the opposite order.
pub proof fn lemma_oscillate_channel_falling(c: u8, e1: u32, e2: u32, period_ms: u64)
    requires
        1 <= period_ms,
        e1 <= e2 <= period_ms,
        period_ms <= e1 + e2,
    ensures
        spec_wave_channel(StartPhase::Low, c, e2, period_ms) <= spec_wave_channel(
            StartPhase::Low,
            c,
            e1,
            period_ms,
        ),
{
    let h = period_ms as int;
    if e2 < period_ms {
        lemma_wave_position(e1, period_ms);
        lemma_wave_position(e2, period_ms);
        lemma_wave_level_falling(c, e1 as int, e2 as int, h);
    } else {
        assert(e2 as int % h == 0) by {
            assert(e2 as int == h);
            lemma_mod_self_0(h);
        }
        lemma_wave_level_ends(c, h);
        if e1 < period_ms {
            lemma_wave_position(e1, period_ms);
            lemma_wave_level_bounds(c, e1 as int, h);
        }
    }
}

/// At half its period — the quarter of the rectified cycle — a sine-mode
/// channel reaches the full channel value, its maximum.
pub proof fn lemma_oscillate_channel_peak(c: u8, e: u32, period_ms: u64)
    requires
        1 <= period_ms,
        2 * e == period_ms,
    ensures
        spec_wave_channel(StartPhase::Low, c, e, period_ms) == c,
        forall|e2: u32|
            #![trigger spec_wave_channel(StartPhase::Low, c, e2, period_ms)]
            e2 <= period_ms ==> spec_wave_channel(StartPhase::Low, c, e2, period_ms) <= c,
{
    let h = period_ms as int;
    lemma_wave_position(e, period_ms);
    assert(e as int == h / 2);
    lemma_wave_level_peak(c, h);
    assert forall|e2: u32|
        e2 <= period_ms implies #[trigger] spec_wave_channel(StartPhase::Low, c, e2, period_ms)
        <= c by {
        if e2 < period_ms {
            lemma_wave_position(e2, period_ms);
            lemma_wave_level_max_at_midpoint(c, e2 as int, h);
        } else {
            lemma_mod_self_0(h);
            lemma_wave_level_ends(c, h);
        }
    }
}

/// A sine-mode oscillation with zero phase offset is, per channel,
/// non-decreasing across the rising half of its period: the full
/// monotonicity statement lifted from channels to polled colors.
pub proof fn lemma_oscillate_rising(cy: Cycler, ctx: Context, e1: u32, e2: u32)
    requires
        ctx.wf(),
        cy.start_phase is Low,
        ctx.phase_offset_ms == 0,
        1 <= ctx.period_ms,
        e1 <= e2,
        e1 + e2 <= ctx.period_ms,
        e2 < ctx.duration_ms,
    ensures
        spec_cycler_poll(cy, ctx, e1) is Some,
        spec_cycler_poll(cy, ctx, e2) is Some,
        spec_cycler_poll(cy, ctx, e1).unwrap().r <= spec_cycler_poll(cy, ctx, e2).unwrap().r,
        spec_cycler_poll(cy, ctx, e1).unwrap().g <= spec_cycler_poll(cy, ctx, e2).unwrap().g,
        spec_cycler_poll(cy, ctx, e1).unwrap().b <= spec_cycler_poll(cy, ctx, e2).unwrap().b,
{
    lemma_oscillate_channel_bounds(ctx, e1);
    lemma_oscillate_channel_bounds(ctx, e2);
    lemma_oscillate_channel_rising(ctx.color.r, e1, e2, ctx.period_ms);
    lemma_oscillate_channel_rising(ctx.color.g, e1, e2, ctx.period_ms);
    lemma_oscillate_channel_rising(ctx.color.b, e1, e2, ctx.period_ms);
}

/// A sine-mode oscillation with zero phase offset is, per channel,
/// non-increasing across the falling half of its period.
pub proof fn lemma_oscillate_falling(cy: Cycler, ctx: Context, e1: u32, e2: u32)
    requires
        ctx.wf(),
        cy.start_phase is Low,
        ctx.phase_offset_ms == 0,
        1 <= ctx.period_ms,
        e1 <= e2 <= ctx.period_ms,
        ctx.period_ms <= e1 + e2,
        e2 < ctx.duration_ms,
    ensures
        spec_cycler_poll(cy, ctx, e1) is Some,
        spec_cycler_poll(cy, ctx, e2) is Some,
        spec_cycler_poll(cy, ctx, e2).unwrap().r <= spec_cycler_poll(cy, ctx, e1).unwrap().r,
        spec_cycler_poll(cy, ctx, e2).unwrap().g <= spec_cycler_poll(cy, ctx, e1).unwrap().g,
        spec_cycler_poll(cy, ctx, e2).unwrap().b <= spec_cycler_poll(cy, ctx, e1).unwrap().b,
{
    lemma_oscillate_channel_bounds(ctx, e1);
    lemma_oscillate_channel_bounds(ctx, e2);
    lemma_oscillate_channel_falling(ctx.color.r, e1, e2, ctx.period_ms);
    lemma_oscillate_channel_falling(ctx.color.g, e1, e2, ctx.period_ms);
    lemma_oscillate_channel_falling(ctx.color.b, e1, e2, ctx.period_ms);
}

/// At half its period a sine-mode oscillation with zero phase offset
/// shows exactly its target color.
pub proof fn lemma_oscillate_peak(cy: Cycler, ctx: Context, e: u32)
    requires
        ctx.wf(),
        cy.start_phase is Low,
        ctx.phase_offset_ms == 0,
        1 <= ctx.period_ms,
        2 * e == ctx.period_ms,
        e < ctx.duration_ms,
    ensures
        spec_cycler_poll(cy, ctx, e) == Some(ctx.color),
{
    lemma_oscillate_channel_peak(ctx.color.r, e, ctx.period_ms);
    lemma_oscillate_channel_peak(ctx.color.g, e, ctx.period_ms);
    lemma_oscillate_channel_peak(ctx.color.b, e, ctx.period_ms);
}

/// Every sine-mode wave channel stays within the channel's own value;
/// here each channel of the sampled color.
proof fn lemma_oscillate_channel_bounds(ctx: Context, e: u32)
    requires
        ctx.wf(),
        1 <= ctx.period_ms,
        e <= ctx.period_ms,
    ensures
        0 <= spec_wave_channel(StartPhase::Low, ctx.color.r, e, ctx.period_ms) <= ctx.color.r,
        0 <= spec_wave_channel(StartPhase::Low, ctx.color.g, e, ctx.period_ms) <= ctx.color.g,
        0 <= spec_wave_channel(StartPhase::Low, ctx.color.b, e, ctx.period_ms) <= ctx.color.b,
{
    let h = ctx.period_ms as int;
    if e < ctx.period_ms {
        lemma_wave_position(e, ctx.period_ms);
        lemma_wave_level_bounds(ctx.color.r, e as int, h);
        lemma_wave_level_bounds(ctx.color.g, e as int, h);
        lemma_wave_level_bounds(ctx.color.b, e as int, h);
    } else {
        lemma_mod_self_0(h);
        lemma_wave_level_ends(ctx.color.r, h);
        lemma_wave_level_ends(ctx.color.g, h);
        lemma_wave_level_ends(ctx.color.b, h);
    }
}

/// Whether a context is shaped as a bounded fade leaves it: zero phase
/// offset and a period pinned to twice the duration.
pub open spec fn spec_fade_shape(ctx: Context) -> bool {
    ctx.period_ms == 2 * ctx.duration_ms && ctx.phase_offset_ms == 0
}

/// A fade up from a dark hand-off starts dark: at elapsed time zero it
/// shows all channels off.
pub proof fn lemma_fade_up_start(f: FadeColor, ctx: Context)
    requires
        ctx.wf(),
        spec_fade_shape(ctx),
        f.cycler.start_phase is Low,
        ctx.duration_ms >= 1,
    ensures
        spec_fade_poll(f, ctx, 0) == Some(spec_black()),
{
    let h = ctx.period_ms as int;
    lemma_wave_position(0, ctx.period_ms);
    lemma_wave_level_ends(ctx.color.r, h);
    lemma_wave_level_ends(ctx.color.g, h);
    lemma_wave_level_ends(ctx.color.b, h);
}

/// A fade up is per-channel non-decreasing across its whole duration.
pub proof fn lemma_fade_up_monotone(f: FadeColor, ctx: Context, e1: u32, e2: u32)
    requires
        ctx.wf(),
        spec_fade_shape(ctx),
        f.cycler.start_phase is Low,
        e1 <= e2 < ctx.duration_ms,
    ensures
        spec_fade_poll(f, ctx, e1) is Some,
        spec_fade_poll(f, ctx, e2) is Some,
        spec_fade_poll(f, ctx, e1).unwrap().r <= spec_fade_poll(f, ctx, e2).unwrap().r,
        spec_fade_poll(f, ctx, e1).unwrap().g <= spec_fade_poll(f, ctx, e2).unwrap().g,
        spec_fade_poll(f, ctx, e1).unwrap().b <= spec_fade_poll(f, ctx, e2).unwrap().b,
{
    lemma_oscillate_rising(f.cycler, ctx, e1, e2);
}

/// A fade down starts at its full target color: at elapsed time zero it
/// shows exactly the target.
pub proof fn lemma_fade_down_start(f: FadeColor, ctx: Context)
    requires
        ctx.wf(),
        spec_fade_shape(ctx),
        f.cycler.start_phase is High,
        ctx.duration_ms >= 1,
    ensures
        spec_fade_poll(f, ctx, 0) == Some(ctx.color),
{
    let h = ctx.period_ms as int;
    lemma_wave_position(0, ctx.period_ms);
    lemma_wave_level_peak(ctx.color.r, 2 * h);
    lemma_wave_level_peak(ctx.color.g, 2 * h);
    lemma_wave_level_peak(ctx.color.b, 2 * h);
}

/// A fade down is per-channel non-increasing across its whole duration.
pub proof fn lemma_fade_down_monotone(f: FadeColor, ctx: Context, e1: u32, e2: u32)
    requires
        ctx.wf(),
        spec_fade_shape(ctx),
        f.cycler.start_phase is High,
        e1 <= e2 < ctx.duration_ms,
    ensures
        spec_fade_poll(f, ctx, e1) is Some,
        spec_fade_poll(f, ctx, e2) is Some,
        spec_fade_poll(f, ctx, e2).unwrap().r <= spec_fade_poll(f, ctx, e1).unwrap().r,
        spec_fade_poll(f, ctx, e2).unwrap().g <= spec_fade_poll(f, ctx, e1).unwrap().g,
        spec_fade_poll(f, ctx, e2).unwrap().b <= spec_fade_poll(f, ctx, e1).unwrap().b,
{
    let h = ctx.period_ms as int;
    lemma_wave_position(e1, ctx.period_ms);
    lemma_wave_position(e2, ctx.period_ms);
    lemma_fade_down_channel(ctx.color.r, e1, e2, h);
    lemma_fade_down_channel(ctx.color.g, e1, e2, h);
    lemma_fade_down_channel(ctx.color.b, e1, e2, h);
}

/// One channel of a fade down: the reflected wave position falls as the
/// elapsed time rises.
proof fn lemma_fade_down_channel(c: u8, e1: u32, e2: u32, h: int)
    requires
        2 <= h,
        e1 <= e2,
        2 * e2 < h,
    ensures
        wave_level(c, h - 2 * e2, 2 * h) <= wave_level(c, h - 2 * e1, 2 * h),
        0 <= wave_level(c, h - 2 * e1, 2 * h) <= c,
        0 <= wave_level(c, h - 2 * e2, 2 * h) <= c,
{
    lemma_wave_level_rising(c, h - 2 * e2, h - 2 * e1, 2 * h);
    lemma_wave_level_bounds(c, h - 2 * e1, 2 * h);
    lemma_wave_level_bounds(c, h - 2 * e2, 2 * h);
}

/// A fade is exhausted at and after its duration.
pub proof fn lemma_fade_exhausted(f: FadeColor, ctx: Context, e: u32)
    requires
        e >= ctx.duration_ms,
    ensures
        spec_fade_poll(f, ctx, e) is None,
{
}

/// Step chaining under the run-once policy: when the current step is
/// exhausted and another step follows, one poll advances the cursor by
/// exactly one, hands the finished step's end tick, end phase and color
/// to the next step, and shows that step's sample for the same tick.
pub proof fn lemma_one_shot_handoff<const N: usize>(s: Sequence<N>, now: u32, ticks_per_ms: u32)
    requires
        ticks_per_ms >= 1,
        s.wf(),
        !s.never_run,
        s.behavior is OneShot,
        s.position + 1 < s.len,
        s.seq[s.position as int].behavior is OneShot,
        spec_elapsed_ms(
            now,
            s.seq[s.position as int].action.context.start_tick,
            ticks_per_ms,
        ) >= s.seq[s.position as int].action.context.duration_ms,
    ensures
        ({
            let a1 = s.seq[s.position as int];
            let hand = spec_handoff(a1, ticks_per_ms);
            let next = spec_action_reinit(s.seq[s.position as int + 1], hand.0, hand.1, hand.2);
            let r = spec_sequence_poll(s, now, ticks_per_ms);
            &&& r.0.position == s.position + 1
            &&& r.1 == spec_action_poll(next, now, ticks_per_ms).1
        }),
{
    let a1 = s.seq[s.position as int];
    let e = spec_elapsed_ms(now, a1.action.context.start_tick, ticks_per_ms);
    lemma_step_live_iff_within_duration(a1.action, e);
}

/// No poll is lost at a step boundary: if, in addition, the tick falls
/// within the following step's window (measured from the finished step's
/// end) and that step does not yield immediately, the poll shows a color.
pub proof fn lemma_one_shot_no_gap<const N: usize>(s: Sequence<N>, now: u32, ticks_per_ms: u32)
    requires
        ticks_per_ms >= 1,
        s.wf(),
        !s.never_run,
        s.behavior is OneShot,
        s.position + 1 < s.len,
        s.seq[s.position as int].behavior is OneShot,
        spec_elapsed_ms(
            now,
            s.seq[s.position as int].action.context.start_tick,
            ticks_per_ms,
        ) >= s.seq[s.position as int].action.context.duration_ms,
        !(s.seq[s.position as int + 1].behavior is Nop),
        ({
            let a1 = s.seq[s.position as int];
            let hand = spec_handoff(a1, ticks_per_ms);
            let next = spec_action_reinit(s.seq[s.position as int + 1], hand.0, hand.1, hand.2);
            spec_elapsed_ms(now, next.action.context.start_tick, ticks_per_ms)
                < next.action.context.duration_ms
        }),
    ensures
        spec_sequence_poll(s, now, ticks_per_ms).1 is Some,
{
    let a1 = s.seq[s.position as int];
    let e = spec_elapsed_ms(now, a1.action.context.start_tick, ticks_per_ms);
    lemma_step_live_iff_within_duration(a1.action, e);
    let hand = spec_handoff(a1, ticks_per_ms);
    let next = spec_action_reinit(s.seq[s.position as int + 1], hand.0, hand.1, hand.2);
    let e2 = spec_elapsed_ms(now, next.action.context.start_tick, ticks_per_ms);
    lemma_step_live_iff_within_duration(next.action, e2);
}

/// One wrap of a bounded sequence loop: when the last step is exhausted
/// and repeats are left, a poll wraps the cursor to the first step and
/// counts exactly one repeat.
pub proof fn lemma_times_wrap<const N: usize>(
    s: Sequence<N>,
    current: usize,
    cycles: usize,
    now: u32,
    ticks_per_ms: u32,
)
    requires
        ticks_per_ms >= 1,
        s.wf(),
        !s.never_run,
        s.behavior == (LoopBehavior::LoopN { current, cycles }),
        s.position == s.len - 1,
        s.seq[s.position as int].behavior is OneShot,
        spec_elapsed_ms(
            now,
            s.seq[s.position as int].action.context.start_tick,
            ticks_per_ms,
        ) >= s.seq[s.position as int].action.context.duration_ms,
        current < cycles,
    ensures
        spec_sequence_poll(s, now, ticks_per_ms).0.position == 0,
        spec_sequence_poll(s, now, ticks_per_ms).0.behavior == (LoopBehavior::LoopN {
            current: (current + 1) as usize,
            cycles,
        }),
{
    let a1 = s.seq[s.position as int];
    let e = spec_elapsed_ms(now, a1.action.context.start_tick, ticks_per_ms);
    lemma_step_live_iff_within_duration(a1.action, e);
}

/// Exhaustion of a bounded sequence loop: once no repeats are left and
/// the last step is exhausted, a poll shows nothing and parks the cursor
/// past the last step, where every later poll shows nothing too.
pub proof fn lemma_times_exhausted<const N: usize>(
    s: Sequence<N>,
    cycles: usize,
    now: u32,
    ticks_per_ms: u32,
)
    requires
        ticks_per_ms >= 1,
        s.wf(),
        !s.never_run,
        s.behavior == (LoopBehavior::LoopN { current: cycles, cycles }),
        s.position == s.len - 1,
        s.seq[s.position as int].behavior is OneShot,
        spec_elapsed_ms(
            now,
            s.seq[s.position as int].action.context.start_tick,
            ticks_per_ms,
        ) >= s.seq[s.position as int].action.context.duration_ms,
    ensures
        spec_sequence_poll(s, now, ticks_per_ms).1 is None,
        spec_sequence_poll(s, now, ticks_per_ms).0.position == s.len,
        forall|later: u32, tpms2: u32|
            tpms2 >= 1 ==> #[trigger] spec_sequence_poll(
                spec_sequence_poll(s, now, ticks_per_ms).0,
                later,
                tpms2,
            ).1 is None,
{
    let a1 = s.seq[s.position as int];
    let e = spec_elapsed_ms(now, a1.action.context.start_tick, ticks_per_ms);
    lemma_step_live_iff_within_duration(a1.action, e);
}

/// Phase auto-advance under `Forever`: every reinitialization that hands
/// a step its own end phase moves the phase offset forward by exactly
/// the step's duration, and the policy stays `Forever`.
pub proof fn lemma_phase_advance_forever(ctx: Context, start: u32, last_color: Rgb8)
    requires
        ctx.auto_incr_phase is Forever,
    ensures
        spec_reinit(ctx, start, spec_calc_end_phase(ctx), last_color).phase_offset_ms
            == spec_end_phase(ctx.phase_offset_ms, ctx.duration_ms),
        spec_reinit(ctx, start, spec_calc_end_phase(ctx), last_color).auto_incr_phase
            is Forever,
{
}

/// Phase auto-advance under `Once`: the first reinitialization takes the
/// handed-off end phase and downgrades the policy to `Never`; any later
/// reinitialization leaves the phase offset untouched.
pub proof fn lemma_phase_advance_once(
    ctx: Context,
    start: u32,
    last_color: Rgb8,
    start2: u32,
    ph2: u32,
    last_color2: Rgb8,
)
    requires
        ctx.auto_incr_phase is Once,
    ensures
        ({
            let first = spec_reinit(ctx, start, spec_calc_end_phase(ctx), last_color);
            &&& first.phase_offset_ms == spec_end_phase(ctx.phase_offset_ms, ctx.duration_ms)
            &&& first.auto_incr_phase is Never
            &&& spec_reinit(first, start2, ph2, last_color2).phase_offset_ms
                == first.phase_offset_ms
        }),
{
}

/// Seeding at the first real poll consumes a `Once` phase policy without
/// moving the phase offset: the step keeps its configured offset and
/// later transitions no longer advance it.
pub proof fn lemma_seeding_keeps_phase<const N: usize>(s: Sequence<N>, now: u32)
    requires
        s.wf(),
        s.position < s.len,
    ensures
        ({
            let a = s.seq[s.position as int];
            let a2 = spec_seeded(s, now).seq[s.position as int];
            &&& a2.action.context.phase_offset_ms == a.action.context.phase_offset_ms
            &&& a2.action.context.start_tick == now
            &&& a2.action.context.last_color == spec_black()
        }),
{
}

} // verus!
