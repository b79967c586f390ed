//! The sequencing engine.
//!
//! A [`Sequence`] owns up to `N` [`Action`]s and a cursor. Each action
//! pairs one behavior with a [`Context`] (timing and color parameters)
//! and a [`LoopBehavior`] (its repeat policy); the sequence has a repeat
//! policy of its own. Polling flows downward — sequence to action to
//! behavior — and either a color or an end-of-step signal flows back up,
//! which the owning layer interprets according to its policy.
//!
//! Every poll takes the current tick of the caller's monotonic counter
//! and the counter's rate in whole ticks per millisecond.

use crate::behaviors::{AutoIncr, Cycler, FadeColor, SeekColor, StartPhase, StayColor};
use crate::behaviors::{spec_cycler_poll, spec_fade_poll, spec_seek_poll, spec_stay_poll};
use crate::color::{spec_black, Rgb8};
use crate::timing::{end_phase, end_tick, spec_elapsed_ms, spec_end_phase, spec_end_tick};
use vstd::array::spec_array_update;
use vstd::prelude::*;

verus! {

/// The behavior-independent parameters of an [`Action`]: its start tick,
/// duration, oscillation period, phase offset and policy, target color,
/// and the color handed off by the previous step.
#[derive(Clone, Copy, Debug)]
pub struct Context {
    /// Tick at which the step started (or will be treated as started).
    pub start_tick: u32,
    /// How the phase offset is carried across reinitializations.
    pub auto_incr_phase: AutoIncr,
    /// Oscillation half-period base, in milliseconds. The rectified wave
    /// repeats every `period_ms` milliseconds.
    pub period_ms: u64,
    /// How long the step runs, in milliseconds. May be zero, in which
    /// case the step reports completion on the very first poll.
    pub duration_ms: u32,
    /// Offset added to the elapsed time when sampling the wave.
    pub phase_offset_ms: u32,
    /// The color produced by the previous step, used by interpolation.
    pub last_color: Rgb8,
    /// The target color of the step.
    pub color: Rgb8,
}

/// The default context: everything zero, dark colors, phase kept.
pub open spec fn spec_default_context() -> Context {
    Context {
        start_tick: 0,
        auto_incr_phase: AutoIncr::Never,
        period_ms: 0,
        duration_ms: 0,
        phase_offset_ms: 0,
        last_color: spec_black(),
        color: spec_black(),
    }
}

impl Default for Context {
    /// A context with all parameters zeroed and dark colors.
    fn default() -> (c: Context)
        ensures
            c == spec_default_context(),
    {
        Context {
            start_tick: 0,
            auto_incr_phase: AutoIncr::Never,
            period_ms: 0,
            duration_ms: 0,
            phase_offset_ms: 0,
            last_color: Rgb8 { r: 0, g: 0, b: 0 },
            color: Rgb8 { r: 0, g: 0, b: 0 },
        }
    }
}

/// The tick at which this context's step ends.
pub open spec fn spec_calc_end(ctx: Context, ticks_per_ms: u32) -> u32 {
    spec_end_tick(ctx.start_tick, ctx.duration_ms, ticks_per_ms)
}

/// The phase offset this context's step has accumulated when it ends.
pub open spec fn spec_calc_end_phase(ctx: Context) -> u32 {
    spec_end_phase(ctx.phase_offset_ms, ctx.duration_ms)
}

/// A context reinitialized for a new run: the new start tick and
/// hand-off color are always taken; the handed-off phase is taken only
/// under `Once` (which then downgrades to `Never`) or `Forever`.
pub open spec fn spec_reinit(ctx: Context, start: u32, start_ph: u32, last_color: Rgb8) -> Context {
    let base = Context { start_tick: start, last_color, ..ctx };
    match ctx.auto_incr_phase {
        AutoIncr::Never => base,
        AutoIncr::Once => Context {
            phase_offset_ms: start_ph,
            auto_incr_phase: AutoIncr::Never,
            ..base
        },
        AutoIncr::Forever => Context { phase_offset_ms: start_ph, ..base },
    }
}

impl Context {
    /// Periods stay small enough for the wave evaluator; every
    /// constructor and setter of the engine maintains this.
    pub open spec fn wf(self) -> bool {
        self.period_ms <= 0x2_0000_0000u64
    }

    /// The tick at which this step ends.
    pub fn calc_end(&self, ticks_per_ms: u32) -> (t: u32)
        ensures
            t == spec_calc_end(*self, ticks_per_ms),
    {
        end_tick(self.start_tick, self.duration_ms, ticks_per_ms)
    }

    /// The phase offset this step has accumulated when it ends.
    pub fn calc_end_phase(&self) -> (p: u32)
        ensures
            p == spec_calc_end_phase(*self),
    {
        end_phase(self.phase_offset_ms, self.duration_ms)
    }

    /// Reinitialize for a new run with a start tick, a handed-off end
    /// phase, and the hand-off color.
    pub(crate) fn reinit(&mut self, start: u32, start_ph: u32, last_color: Rgb8)
        ensures
            *final(self) == spec_reinit(*old(self), start, start_ph, last_color),
            final(self).wf() == old(self).wf(),
    {
        self.start_tick = start;
        self.last_color = last_color;
        match self.auto_incr_phase {
            AutoIncr::Never => {},
            AutoIncr::Once => {
                self.phase_offset_ms = start_ph;
                self.auto_incr_phase = AutoIncr::Never;
            },
            AutoIncr::Forever => {
                self.phase_offset_ms = start_ph;
            },
        }
    }
}

/// The concrete behavior an action runs.
#[derive(Clone, Copy, Debug)]
pub enum InnerActionKind {
    /// An oscillation ([`Cycler`]).
    Sin(Cycler),
    /// A constant hold ([`StayColor`]).
    Static(StayColor),
    /// A bounded fade ([`FadeColor`]).
    Fade(FadeColor),
    /// A linear interpolation ([`SeekColor`]).
    Seek(SeekColor),
}

/// One behavior bound to its context.
#[derive(Clone, Copy, Debug)]
pub struct InnerAction {
    /// Timing and color parameters of the step.
    pub context: Context,
    /// The behavior that samples the step.
    pub kind: InnerActionKind,
}

/// The default inner action: a hold with the default context.
pub open spec fn spec_default_inner_action() -> InnerAction {
    InnerAction { context: spec_default_context(), kind: InnerActionKind::Static(StayColor) }
}

impl Default for InnerAction {
    /// A hold of the default context.
    fn default() -> (a: InnerAction)
        ensures
            a == spec_default_inner_action(),
    {
        InnerAction { context: Context::default(), kind: InnerActionKind::Static(StayColor::new()) }
    }
}

/// What an inner action shows after `e` elapsed milliseconds: the sample
/// of its behavior. Every behavior yields `Some` exactly while `e` is
/// below the context's duration.
pub open spec fn spec_inner_poll(ia: InnerAction, e: u32) -> Option<Rgb8> {
    match ia.kind {
        InnerActionKind::Sin(c) => spec_cycler_poll(c, ia.context, e),
        InnerActionKind::Static(_) => spec_stay_poll(ia.context, e),
        InnerActionKind::Fade(f) => spec_fade_poll(f, ia.context, e),
        InnerActionKind::Seek(_) => spec_seek_poll(ia.context, e),
    }
}

impl InnerAction {
    /// The context's period stays within the wave evaluator's range.
    pub open spec fn wf(self) -> bool {
        self.context.wf()
    }

    /// Sample the behavior against the current tick.
    pub fn poll(&self, now: u32, ticks_per_ms: u32) -> (out: Option<Rgb8>)
        requires
            ticks_per_ms >= 1,
            self.wf(),
        ensures
            out == spec_inner_poll(
                *self,
                spec_elapsed_ms(now, self.context.start_tick, ticks_per_ms),
            ),
    {
        match &self.kind {
            InnerActionKind::Sin(c) => c.poll(&self.context, now, ticks_per_ms),
            InnerActionKind::Static(s) => s.poll(&self.context, now, ticks_per_ms),
            InnerActionKind::Fade(f) => f.poll(&self.context, now, ticks_per_ms),
            InnerActionKind::Seek(s) => s.poll(&self.context, now, ticks_per_ms),
        }
    }
}

/// How an [`Action`] or a [`Sequence`] repeats.
#[derive(Clone, Copy, Debug, PartialEq, Eq, Structural)]
pub enum LoopBehavior {
    /// Run exactly once.
    OneShot,
    /// Loop endlessly.
    LoopForever,
    /// Loop a bounded number of times.
    LoopN {
        /// Repeats taken so far; never exceeds `cycles`.
        current: usize,
        /// Total number of repeats after the initial pass.
        cycles: usize,
    },
    /// Yield immediately to the next step.
    Nop,
}

/// A bounded loop policy never counts past its total.
pub open spec fn spec_loop_wf(b: LoopBehavior) -> bool {
    match b {
        LoopBehavior::LoopN { current, cycles } => current <= cycles,
        _ => true,
    }
}

impl Default for LoopBehavior {
    /// The default policy yields immediately.
    fn default() -> (b: LoopBehavior)
        ensures
            b == LoopBehavior::Nop,
    {
        LoopBehavior::Nop
    }
}

/// A single behavior step: one behavior, its context, and its own repeat
/// policy. Actions are built with [`ActionBuilder`] and live inside a
/// [`Sequence`].
#[derive(Clone, Copy, Debug)]
pub struct Action {
    /// The behavior and its context.
    pub action: InnerAction,
    /// How this step repeats on its own.
    pub behavior: LoopBehavior,
}

/// An action reinitialized for a new run: the context is reinitialized
/// and a bounded loop count starts over.
pub open spec fn spec_action_reinit(a: Action, start: u32, start_ph: u32, last_color: Rgb8) -> Action {
    let behavior = match a.behavior {
        LoopBehavior::LoopN { current, cycles } => LoopBehavior::LoopN { current: 0, cycles },
        b => b,
    };
    Action {
        action: InnerAction {
            context: spec_reinit(a.action.context, start, start_ph, last_color),
            ..a.action
        },
        behavior,
    }
}

/// One poll of an action: the new action state and what it shows.
///
/// The behavior is sampled once; on exhaustion the repeat policy decides:
/// `OneShot` and an exhausted bounded loop report `None`; `LoopForever`
/// reinitializes the context at the step's end tick and samples once
/// more; a bounded loop with repeats left counts one repeat and samples
/// again without reinitializing; `Nop` never samples at all.
pub open spec fn spec_action_poll(a: Action, now: u32, ticks_per_ms: u32) -> (Action, Option<Rgb8>) {
    let e = spec_elapsed_ms(now, a.action.context.start_tick, ticks_per_ms);
    let first = spec_inner_poll(a.action, e);
    match a.behavior {
        LoopBehavior::OneShot => (a, first),
        LoopBehavior::Nop => (a, None),
        LoopBehavior::LoopForever => if first is Some {
            (a, first)
        } else {
            let ctx2 = spec_reinit(
                a.action.context,
                spec_calc_end(a.action.context, ticks_per_ms),
                spec_calc_end_phase(a.action.context),
                a.action.context.color,
            );
            let ia2 = InnerAction { context: ctx2, ..a.action };
            let e2 = spec_elapsed_ms(now, ctx2.start_tick, ticks_per_ms);
            (Action { action: ia2, ..a }, spec_inner_poll(ia2, e2))
        },
        LoopBehavior::LoopN { current, cycles } => if first is Some {
            (a, first)
        } else if current < cycles {
            let a2 = Action {
                behavior: LoopBehavior::LoopN { current: (current + 1) as usize, cycles },
                ..a
            };
            (a2, spec_inner_poll(a2.action, e))
        } else {
            (a, None)
        },
    }
}

impl Action {
    /// The context is in range and the loop count has not overrun.
    pub open spec fn wf(self) -> bool {
        self.action.wf() && spec_loop_wf(self.behavior)
    }

    /// An [`ActionBuilder`] to configure a new action.
    pub fn build() -> (b: ActionBuilder)
        ensures
            b == spec_builder_new(),
    {
        ActionBuilder::new()
    }

    /// Reinitialize for a new run with a start tick, a handed-off end
    /// phase, and the hand-off color.
    pub(crate) fn reinit(&mut self, start: u32, start_ph: u32, last_color: Rgb8)
        ensures
            *final(self) == spec_action_reinit(*old(self), start, start_ph, last_color),
            old(self).wf() ==> final(self).wf(),
    {
        self.action.context.reinit(start, start_ph, last_color);
        match self.behavior {
            LoopBehavior::LoopN { current: _, cycles } => {
                self.behavior = LoopBehavior::LoopN { current: 0, cycles };
            },
            _ => {},
        }
    }

    /// Poll this step once, applying its own repeat policy.
    pub(crate) fn poll(&mut self, now: u32, ticks_per_ms: u32) -> (out: Option<Rgb8>)
        requires
            ticks_per_ms >= 1,
            old(self).wf(),
        ensures
            *final(self) == spec_action_poll(*old(self), now, ticks_per_ms).0,
            out == spec_action_poll(*old(self), now, ticks_per_ms).1,
            final(self).wf(),
    {
        match self.behavior {
            LoopBehavior::OneShot => self.action.poll(now, ticks_per_ms),
            LoopBehavior::Nop => None,
            LoopBehavior::LoopForever => {
                let first = self.action.poll(now, ticks_per_ms);
                if first.is_some() {
                    first
                } else {
                    let end = self.action.context.calc_end(ticks_per_ms);
                    let ph = self.action.context.calc_end_phase();
                    let lc = self.action.context.color;
                    self.action.context.reinit(end, ph, lc);
                    self.action.poll(now, ticks_per_ms)
                }
            },
            LoopBehavior::LoopN { current, cycles } => {
                let first = self.action.poll(now, ticks_per_ms);
                if first.is_some() {
                    first
                } else if current < cycles {
                    self.behavior = LoopBehavior::LoopN { current: current + 1, cycles };
                    self.action.poll(now, ticks_per_ms)
                } else {
                    None
                }
            },
        }
    }
}

/// A bounded, ordered list of [`Action`]s with an overall repeat policy
/// and a play cursor.
///
/// A sequence is constructed empty, loaded with [`Sequence::set`], and
/// then polled; polling hands the end tick, end phase and final color of
/// each exhausted step to the next one, so steps join without losing a
/// tick. The first real poll seeds the first step with the live tick, so
/// a sequence can be built well before it starts running.
#[derive(Clone, Copy, Debug)]
pub struct Sequence<const N: usize> {
    /// Step storage; only the first `len` entries are loaded.
    pub seq: [Action; N],
    /// Number of loaded steps.
    pub len: usize,
    /// Index of the step currently playing.
    pub position: usize,
    /// How the sequence as a whole repeats.
    pub behavior: LoopBehavior,
    /// Whether no step has observed a live tick yet.
    pub never_run: bool,
}

/// A sequence as [`Sequence::new`] returns it: empty, cursor at zero,
/// yielding policy, not yet run, storage filled with default actions.
pub open spec fn spec_new_sequence<const N: usize>(behavior: LoopBehavior) -> Sequence<N> {
    Sequence {
        seq: vstd::array::spec_array_fill_for_copy_type::<Action, N>(
            Action { action: spec_default_inner_action(), behavior: LoopBehavior::Nop },
        ),
        len: 0,
        position: 0,
        behavior,
        never_run: true,
    }
}

/// A sequence seeded at its first real poll: the current step takes the
/// live tick as its start, keeps its own phase offset, and is handed the
/// dark color.
pub open spec fn spec_seeded<const N: usize>(s: Sequence<N>, now: u32) -> Sequence<N> {
    let pos = s.position as int;
    let a = s.seq[pos];
    let a2 = spec_action_reinit(a, now, a.action.context.phase_offset_ms, spec_black());
    Sequence { seq: spec_array_update(s.seq, pos, a2), never_run: false, ..s }
}

/// The hand-off a finished step passes to its successor: its end tick,
/// its end phase, and its target color.
pub open spec fn spec_handoff(a: Action, ticks_per_ms: u32) -> (u32, u32, Rgb8) {
    (
        spec_calc_end(a.action.context, ticks_per_ms),
        spec_calc_end_phase(a.action.context),
        a.action.context.color,
    )
}

/// One poll of a one-shot sequence whose cursor is in range: poll the
/// current step; on exhaustion advance once, reinitialize the next step
/// with the hand-off and poll it, or report `None` past the last step.
pub open spec fn spec_poll_one_shot<const N: usize>(
    s: Sequence<N>,
    now: u32,
    ticks_per_ms: u32,
) -> (Sequence<N>, Option<Rgb8>) {
    let pos = s.position as int;
    let (a1, out1) = spec_action_poll(s.seq[pos], now, ticks_per_ms);
    let s1 = Sequence { seq: spec_array_update(s.seq, pos, a1), ..s };
    if out1 is Some {
        (s1, out1)
    } else {
        let hand = spec_handoff(a1, ticks_per_ms);
        let s2 = Sequence { position: (s1.position + 1) as usize, ..s1 };
        if s2.position < s2.len {
            let a2 = spec_action_reinit(s2.seq[s2.position as int], hand.0, hand.1, hand.2);
            let (a3, out2) = spec_action_poll(a2, now, ticks_per_ms);
            (Sequence { seq: spec_array_update(s2.seq, s2.position as int, a3), ..s2 }, out2)
        } else {
            (s2, None)
        }
    }
}

/// One poll of an endlessly looping sequence whose cursor is in range:
/// like the one-shot poll, but the cursor wraps back to the first step
/// instead of running past the last.
pub open spec fn spec_poll_forever<const N: usize>(
    s: Sequence<N>,
    now: u32,
    ticks_per_ms: u32,
) -> (Sequence<N>, Option<Rgb8>) {
    let pos = s.position as int;
    let (a1, out1) = spec_action_poll(s.seq[pos], now, ticks_per_ms);
    let s1 = Sequence { seq: spec_array_update(s.seq, pos, a1), ..s };
    if out1 is Some {
        (s1, out1)
    } else {
        let hand = spec_handoff(a1, ticks_per_ms);
        let newpos: usize = if s1.position + 1 >= s1.len {
            0usize
        } else {
            (s1.position + 1) as usize
        };
        let s2 = Sequence { position: newpos, ..s1 };
        let a2 = spec_action_reinit(s2.seq[newpos as int], hand.0, hand.1, hand.2);
        let (a3, out2) = spec_action_poll(a2, now, ticks_per_ms);
        (Sequence { seq: spec_array_update(s2.seq, newpos as int, a3), ..s2 }, out2)
    }
}

/// One poll of a bounded-loop sequence whose cursor is in range: like
/// the one-shot poll, but on running past the last step the sequence
/// wraps and counts one repeat while repeats are left.
pub open spec fn spec_poll_times<const N: usize>(
    s: Sequence<N>,
    current: usize,
    cycles: usize,
    now: u32,
    ticks_per_ms: u32,
) -> (Sequence<N>, Option<Rgb8>) {
    let pos = s.position as int;
    let (a1, out1) = spec_action_poll(s.seq[pos], now, ticks_per_ms);
    let s1 = Sequence { seq: spec_array_update(s.seq, pos, a1), ..s };
    if out1 is Some {
        (s1, out1)
    } else {
        let hand = spec_handoff(a1, ticks_per_ms);
        if s1.position + 1 >= s1.len {
            if current < cycles {
                let s2 = Sequence {
                    position: 0usize,
                    behavior: LoopBehavior::LoopN { current: (current + 1) as usize, cycles },
                    ..s1
                };
                let a2 = spec_action_reinit(s2.seq[0], hand.0, hand.1, hand.2);
                let (a3, out2) = spec_action_poll(a2, now, ticks_per_ms);
                (Sequence { seq: spec_array_update(s2.seq, 0, a3), ..s2 }, out2)
            } else {
                (Sequence { position: (s1.position + 1) as usize, ..s1 }, None)
            }
        } else {
            let s2 = Sequence { position: (s1.position + 1) as usize, ..s1 };
            let a2 = spec_action_reinit(s2.seq[s2.position as int], hand.0, hand.1, hand.2);
            let (a3, out2) = spec_action_poll(a2, now, ticks_per_ms);
            (Sequence { seq: spec_array_update(s2.seq, s2.position as int, a3), ..s2 }, out2)
        }
    }
}

/// One poll of a sequence: an empty or exhausted sequence shows `None`;
/// otherwise the first real poll seeds the current step with the live
/// tick, and the sequence's repeat policy directs the step polling.
pub open spec fn spec_sequence_poll<const N: usize>(
    s: Sequence<N>,
    now: u32,
    ticks_per_ms: u32,
) -> (Sequence<N>, Option<Rgb8>) {
    if s.len == 0 || s.position >= s.len {
        (s, None)
    } else {
        let s0 = if s.never_run {
            spec_seeded(s, now)
        } else {
            s
        };
        match s0.behavior {
            LoopBehavior::OneShot => spec_poll_one_shot(s0, now, ticks_per_ms),
            LoopBehavior::LoopForever => spec_poll_forever(s0, now, ticks_per_ms),
            LoopBehavior::LoopN { current, cycles } => spec_poll_times(
                s0,
                current,
                cycles,
                now,
                ticks_per_ms,
            ),
            LoopBehavior::Nop => (s0, None),
        }
    }
}

impl<const N: usize> Sequence<N> {
    /// The cursor never runs past the loaded steps, every loaded step is
    /// in range, and the loop policy has not overrun.
    pub open spec fn wf(self) -> bool {
        &&& self.len <= N
        &&& self.position <= self.len
        &&& forall|i: int| 0 <= i < self.len ==> self.seq[i].wf()
        &&& spec_loop_wf(self.behavior)
    }

    /// A new, empty sequence whose policy yields immediately.
    pub fn new() -> (s: Sequence<N>)
        ensures
            s == spec_new_sequence::<N>(LoopBehavior::Nop),
            s.wf(),
    {
        Sequence {
            seq: [Action { action: InnerAction::default(), behavior: LoopBehavior::Nop }; N],
            len: 0,
            position: 0,
            behavior: LoopBehavior::Nop,
            never_run: true,
        }
    }

    /// An array of new, empty sequences, one per light source.
    pub fn new_array<const M: usize>() -> (arr: [Sequence<N>; M])
        ensures
            forall|i: int| 0 <= i < M ==> arr[i] == spec_new_sequence::<N>(LoopBehavior::Nop),
            forall|i: int| 0 <= i < M ==> arr[i].wf(),
    {
        [Sequence::<N>::new(); M]
    }

    /// A new, empty sequence that will run once.
    pub fn empty() -> (s: Sequence<N>)
        ensures
            s == spec_new_sequence::<N>(LoopBehavior::OneShot),
            s.wf(),
    {
        Sequence {
            seq: [Action { action: InnerAction::default(), behavior: LoopBehavior::Nop }; N],
            len: 0,
            position: 0,
            behavior: LoopBehavior::OneShot,
            never_run: true,
        }
    }

    /// Unload all steps and reset the cursor; the first-poll seeding
    /// flag is left as it is.
    pub fn clear(&mut self)
        ensures
            *final(self) == (Sequence { len: 0usize, position: 0usize, ..*old(self) }),
            old(self).wf() ==> final(self).wf(),
    {
        self.len = 0;
        self.position = 0;
    }

    /// Replace the loaded steps with the first `N` of `actions` (any
    /// excess is ignored, not an error), reset the cursor, arm the
    /// first-poll seeding, and install the new repeat policy.
    pub fn set(&mut self, actions: &[Action], behavior: LoopBehavior)
        requires
            spec_loop_wf(behavior),
            forall|i: int| 0 <= i < actions@.len() ==> actions@[i].wf(),
        ensures
            final(self).len == if actions@.len() < N {
                actions@.len() as int
            } else {
                N as int
            },
            final(self).position == 0,
            final(self).never_run == true,
            final(self).behavior == behavior,
            forall|i: int| 0 <= i < final(self).len ==> final(self).seq[i] == actions@[i],
            forall|i: int| final(self).len <= i < N ==> final(self).seq[i] == old(self).seq[i],
            final(self).wf(),
    {
        let amt = if actions.len() < N {
            actions.len()
        } else {
            N
        };
        self.clear();
        self.never_run = true;
        let mut i: usize = 0;
        while i < amt
            invariant
                i <= amt,
                amt <= N,
                amt <= actions@.len(),
                self.seq@.len() == N,
                forall|j: int| 0 <= j < i ==> self.seq[j] == actions@[j],
                forall|j: int| i <= j < N ==> self.seq[j] == old(self).seq[j],
                self.len == 0,
                self.position == 0,
                self.never_run == true,
                self.behavior == old(self).behavior,
            decreases amt - i,
        {
            self.seq[i] = actions[i];
            i = i + 1;
        }
        self.len = amt;
        self.behavior = behavior;
        proof {
            assert forall|j: int| 0 <= j < self.len implies self.seq[j].wf() by {
                assert(self.seq[j] == actions@[j]);
            }
        }
    }

    /// Poll the currently active step, advancing to the next step when
    /// the active one is exhausted, as the sequence's policy directs.
    /// Shows a color while any step is active.
    pub fn poll(&mut self, now: u32, ticks_per_ms: u32) -> (out: Option<Rgb8>)
        requires
            ticks_per_ms >= 1,
            old(self).wf(),
        ensures
            *final(self) == spec_sequence_poll(*old(self), now, ticks_per_ms).0,
            out == spec_sequence_poll(*old(self), now, ticks_per_ms).1,
            final(self).wf(),
    {
        if self.len == 0 || self.position >= self.len {
            return None;
        }
        if self.never_run {
            let mut first = self.seq[self.position];
            let ph = first.action.context.phase_offset_ms;
            first.reinit(now, ph, Rgb8 { r: 0, g: 0, b: 0 });
            self.seq[self.position] = first;
            self.never_run = false;
            proof {
                assert(self.seq =~= spec_seeded(*old(self), now).seq);
                assert(*self == spec_seeded(*old(self), now));
                assert forall|i: int| 0 <= i < self.len implies self.seq[i].wf() by {
                    assert(self.seq@ == old(self).seq@.update(old(self).position as int, first));
                }
            }
        }
        match self.behavior {
            LoopBehavior::OneShot => self.poll_one_shot(now, ticks_per_ms),
            LoopBehavior::LoopForever => self.poll_forever(now, ticks_per_ms),
            LoopBehavior::LoopN { current, cycles } => self.poll_times(
                current,
                cycles,
                now,
                ticks_per_ms,
            ),
            LoopBehavior::Nop => None,
        }
    }

    /// One poll under the one-shot policy; the cursor is in range.
    fn poll_one_shot(&mut self, now: u32, ticks_per_ms: u32) -> (out: Option<Rgb8>)
        requires
            ticks_per_ms >= 1,
            old(self).wf(),
            old(self).position < old(self).len,
            old(self).behavior is OneShot,
        ensures
            *final(self) == spec_poll_one_shot(*old(self), now, ticks_per_ms).0,
            out == spec_poll_one_shot(*old(self), now, ticks_per_ms).1,
            final(self).wf(),
    {
        let ghost s0 = *old(self);
        let mut a = self.seq[self.position];
        let out1 = a.poll(now, ticks_per_ms);
        self.seq[self.position] = a;
        proof {
            assert(self.seq =~= spec_array_update(s0.seq, s0.position as int, a));
            assert forall|i: int| 0 <= i < self.len implies self.seq[i].wf() by {
                assert(self.seq@ == s0.seq@.update(s0.position as int, a));
            }
        }
        if out1.is_some() {
            out1
        } else {
            let end = a.action.context.calc_end(ticks_per_ms);
            let ph = a.action.context.calc_end_phase();
            let lc = a.action.context.color;
            self.position = self.position + 1;
            if self.position < self.len {
                let ghost s2 = *self;
                let mut b = self.seq[self.position];
                b.reinit(end, ph, lc);
                let out2 = b.poll(now, ticks_per_ms);
                self.seq[self.position] = b;
                proof {
                    assert(self.seq =~= spec_poll_one_shot(s0, now, ticks_per_ms).0.seq);
                    assert(*self == spec_poll_one_shot(s0, now, ticks_per_ms).0);
                    assert forall|i: int| 0 <= i < self.len implies self.seq[i].wf() by {
                        assert(self.seq@ == s2.seq@.update(s2.position as int, b));
                    }
                }
                out2
            } else {
                None
            }
        }
    }

    /// One poll under the endless-loop policy; the cursor is in range.
    fn poll_forever(&mut self, now: u32, ticks_per_ms: u32) -> (out: Option<Rgb8>)
        requires
            ticks_per_ms >= 1,
            old(self).wf(),
            old(self).position < old(self).len,
            old(self).behavior is LoopForever,
        ensures
            *final(self) == spec_poll_forever(*old(self), now, ticks_per_ms).0,
            out == spec_poll_forever(*old(self), now, ticks_per_ms).1,
            final(self).wf(),
    {
        let ghost s0 = *old(self);
        let mut a = self.seq[self.position];
        let out1 = a.poll(now, ticks_per_ms);
        self.seq[self.position] = a;
        proof {
            assert(self.seq =~= spec_array_update(s0.seq, s0.position as int, a));
            assert forall|i: int| 0 <= i < self.len implies self.seq[i].wf() by {
                assert(self.seq@ == s0.seq@.update(s0.position as int, a));
            }
        }
        if out1.is_some() {
            out1
        } else {
            let end = a.action.context.calc_end(ticks_per_ms);
            let ph = a.action.context.calc_end_phase();
            let lc = a.action.context.color;
            self.position = self.position + 1;
            if self.position >= self.len {
                self.position = 0;
            }
            let ghost s2 = *self;
            let mut b = self.seq[self.position];
            b.reinit(end, ph, lc);
            let out2 = b.poll(now, ticks_per_ms);
            self.seq[self.position] = b;
            proof {
                assert(self.seq =~= spec_poll_forever(s0, now, ticks_per_ms).0.seq);
                assert(*self == spec_poll_forever(s0, now, ticks_per_ms).0);
                assert forall|i: int| 0 <= i < self.len implies self.seq[i].wf() by {
                    assert(self.seq@ == s2.seq@.update(s2.position as int, b));
                }
            }
            out2
        }
    }

    /// One poll under the bounded-loop policy; the cursor is in range.
    fn poll_times(&mut self, current: usize, cycles: usize, now: u32, ticks_per_ms: u32) -> (out:
        Option<Rgb8>)
        requires
            ticks_per_ms >= 1,
            old(self).wf(),
            old(self).position < old(self).len,
            old(self).behavior == (LoopBehavior::LoopN { current, cycles }),
        ensures
            *final(self) == spec_poll_times(*old(self), current, cycles, now, ticks_per_ms).0,
            out == spec_poll_times(*old(self), current, cycles, now, ticks_per_ms).1,
            final(self).wf(),
    {
        let ghost s0 = *old(self);
        let mut a = self.seq[self.position];
        let out1 = a.poll(now, ticks_per_ms);
        self.seq[self.position] = a;
        proof {
            assert(self.seq =~= spec_array_update(s0.seq, s0.position as int, a));
            assert forall|i: int| 0 <= i < self.len implies self.seq[i].wf() by {
                assert(self.seq@ == s0.seq@.update(s0.position as int, a));
            }
        }
        if out1.is_some() {
            out1
        } else {
            let end = a.action.context.calc_end(ticks_per_ms);
            let ph = a.action.context.calc_end_phase();
            let lc = a.action.context.color;
            self.position = self.position + 1;
            if self.position >= self.len {
                if current < cycles {
                    self.position = 0;
                    self.behavior = LoopBehavior::LoopN { current: current + 1, cycles };
                    let ghost s2 = *self;
                    let mut b = self.seq[0];
                    b.reinit(end, ph, lc);
                    let out2 = b.poll(now, ticks_per_ms);
                    self.seq[0] = b;
                    proof {
                        assert(self.seq =~= spec_poll_times(s0, current, cycles, now, ticks_per_ms).0.seq);
                        assert(*self == spec_poll_times(s0, current, cycles, now, ticks_per_ms).0);
                        assert forall|i: int| 0 <= i < self.len implies self.seq[i].wf() by {
                            assert(self.seq@ == s2.seq@.update(0, b));
                        }
                    }
                    out2
                } else {
                    None
                }
            } else {
                let ghost s2 = *self;
                let mut b = self.seq[self.position];
                b.reinit(end, ph, lc);
                let out2 = b.poll(now, ticks_per_ms);
                self.seq[self.position] = b;
                proof {
                    assert(self.seq =~= spec_poll_times(s0, current, cycles, now, ticks_per_ms).0.seq);
                    assert(*self == spec_poll_times(s0, current, cycles, now, ticks_per_ms).0);
                    assert forall|i: int| 0 <= i < self.len implies self.seq[i].wf() by {
                        assert(self.seq@ == s2.seq@.update(s2.position as int, b));
                    }
                }
                out2
            }
        }
    }
}

impl<const N: usize> Default for Sequence<N> {
    /// An empty sequence whose policy yields immediately.
    fn default() -> (s: Sequence<N>)
        ensures
            s == spec_new_sequence::<N>(LoopBehavior::Nop),
    {
        Sequence::new()
    }
}

/// The builder [`ActionBuilder::new`] returns: a hold of the default
/// context that yields immediately.
pub open spec fn spec_builder_new() -> ActionBuilder {
    ActionBuilder {
        act: Action { action: spec_default_inner_action(), behavior: LoopBehavior::Nop },
    }
}

/// The period a step keeps when its duration is set: a bounded fade pins
/// the period to twice the duration; everything else keeps its period.
pub open spec fn spec_duration_period(kind: InnerActionKind, duration: u32, period: u64) -> u64 {
    match kind {
        InnerActionKind::Fade(_) => (duration * 2) as u64,
        _ => period,
    }
}

/// The period a step takes when duration and period are set together:
/// an oscillation doubles the given period, a bounded fade pins it to
/// twice the duration, and the rest take the period as given.
pub open spec fn spec_dur_per_period(kind: InnerActionKind, duration: u32, period_ms: u32) -> u64 {
    match kind {
        InnerActionKind::Sin(_) => (period_ms * 2) as u64,
        InnerActionKind::Static(_) => period_ms as u64,
        InnerActionKind::Fade(_) => (duration * 2) as u64,
        InnerActionKind::Seek(_) => period_ms as u64,
    }
}

/// The period a step takes when the period alone is set: holds and
/// bounded fades ignore it (a fade's period is derived from its
/// duration, a hold has none); the rest take it as given.
pub open spec fn spec_period_override(kind: InnerActionKind, period_ms: u32, period: u64) -> u64 {
    match kind {
        InnerActionKind::Sin(_) => period_ms as u64,
        InnerActionKind::Seek(_) => period_ms as u64,
        _ => period,
    }
}

/// The phase offset and phase policy a [`PhaseIncr`] stands for.
pub open spec fn spec_phase_incr_parts(p: PhaseIncr) -> (u32, AutoIncr) {
    match p {
        PhaseIncr::Millis(ms) => (ms, AutoIncr::Never),
        PhaseIncr::AutoIncr => (0u32, AutoIncr::Forever),
        PhaseIncr::AutoIncrOnStart => (0u32, AutoIncr::Once),
    }
}

/// A builder for [`Action`]s.
pub struct ActionBuilder {
    /// The action under construction.
    pub act: Action,
}

impl ActionBuilder {
    /// A builder holding the default action.
    pub fn new() -> (b: ActionBuilder)
        ensures
            b == spec_builder_new(),
    {
        ActionBuilder {
            act: Action { action: InnerAction::default(), behavior: LoopBehavior::default() },
        }
    }

    /// Finalize the builder into an action.
    pub fn finish(self) -> (a: Action)
        ensures
            a == self.act,
    {
        self.act
    }

    /// Repeat the step `ct` times after its initial pass.
    pub fn times(self, ct: usize) -> (r: ActionBuilder)
        ensures
            r == (ActionBuilder {
                act: Action {
                    behavior: LoopBehavior::LoopN { current: 0usize, cycles: ct },
                    ..self.act
                },
            }),
    {
        ActionBuilder {
            act: Action {
                behavior: LoopBehavior::LoopN { current: 0, cycles: ct },
                ..self.act
            },
        }
    }

    /// Run the step exactly once.
    pub fn once(self) -> (r: ActionBuilder)
        ensures
            r == (ActionBuilder { act: Action { behavior: LoopBehavior::OneShot, ..self.act } }),
    {
        ActionBuilder { act: Action { behavior: LoopBehavior::OneShot, ..self.act } }
    }

    /// Loop the step endlessly.
    pub fn forever(self) -> (r: ActionBuilder)
        ensures
            r == (ActionBuilder {
                act: Action { behavior: LoopBehavior::LoopForever, ..self.act },
            }),
    {
        ActionBuilder { act: Action { behavior: LoopBehavior::LoopForever, ..self.act } }
    }

    /// Set the target color.
    pub fn color(self, color: Rgb8) -> (r: ActionBuilder)
        ensures
            r == (ActionBuilder {
                act: Action {
                    action: InnerAction {
                        context: Context { color, ..self.act.action.context },
                        ..self.act.action
                    },
                    ..self.act
                },
            }),
    {
        let mut act = self.act;
        act.action.context.color = color;
        ActionBuilder { act }
    }

    /// Set the duration in milliseconds. A bounded fade also pins its
    /// period to twice the duration, so its sweep covers the whole step.
    pub fn for_ms(self, duration: u32) -> (r: ActionBuilder)
        ensures
            r == (ActionBuilder {
                act: Action {
                    action: InnerAction {
                        context: Context {
                            duration_ms: duration,
                            period_ms: spec_duration_period(
                                self.act.action.kind,
                                duration,
                                self.act.action.context.period_ms,
                            ),
                            ..self.act.action.context
                        },
                        ..self.act.action
                    },
                    ..self.act
                },
            }),
            self.act.wf() ==> r.act.wf(),
    {
        let mut act = self.act;
        act.action.context.duration_ms = duration;
        match act.action.kind {
            InnerActionKind::Fade(_) => {
                act.action.context.period_ms = (duration as u64) * 2;
            },
            _ => {},
        }
        ActionBuilder { act }
    }

    /// Set the phase offset behavior.
    pub fn phase_offset_ms(self, phase_offset_ms: PhaseIncr) -> (r: ActionBuilder)
        ensures
            r == (ActionBuilder {
                act: Action {
                    action: InnerAction {
                        context: Context {
                            phase_offset_ms: spec_phase_incr_parts(phase_offset_ms).0,
                            auto_incr_phase: spec_phase_incr_parts(phase_offset_ms).1,
                            ..self.act.action.context
                        },
                        ..self.act.action
                    },
                    ..self.act
                },
            }),
    {
        let (ms, incr) = match phase_offset_ms {
            PhaseIncr::Millis(ms) => (ms, AutoIncr::Never),
            PhaseIncr::AutoIncr => (0, AutoIncr::Forever),
            PhaseIncr::AutoIncrOnStart => (0, AutoIncr::Once),
        };
        let mut act = self.act;
        act.action.context.phase_offset_ms = ms;
        act.action.context.auto_incr_phase = incr;
        ActionBuilder { act }
    }

    /// Set the duration and period in one step. An oscillation doubles
    /// the given period; a bounded fade derives its period from the
    /// duration instead.
    pub fn dur_per_ms(self, duration: u32, period_ms: u32) -> (r: ActionBuilder)
        ensures
            r == (ActionBuilder {
                act: Action {
                    action: InnerAction {
                        context: Context {
                            duration_ms: duration,
                            period_ms: spec_dur_per_period(
                                self.act.action.kind,
                                duration,
                                period_ms,
                            ),
                            ..self.act.action.context
                        },
                        ..self.act.action
                    },
                    ..self.act
                },
            }),
            self.act.wf() ==> r.act.wf(),
    {
        let mut act = self.act;
        act.action.context.duration_ms = duration;
        act.action.context.period_ms = match act.action.kind {
            InnerActionKind::Sin(_) => (period_ms as u64) * 2,
            InnerActionKind::Static(_) => period_ms as u64,
            InnerActionKind::Fade(_) => (duration as u64) * 2,
            InnerActionKind::Seek(_) => period_ms as u64,
        };
        ActionBuilder { act }
    }

    /// Set the period in milliseconds. Holds have no period and bounded
    /// fades derive theirs from the duration, so both leave it unchanged.
    pub fn period_ms(self, period_ms: u32) -> (r: ActionBuilder)
        ensures
            r == (ActionBuilder {
                act: Action {
                    action: InnerAction {
                        context: Context {
                            period_ms: spec_period_override(
                                self.act.action.kind,
                                period_ms,
                                self.act.action.context.period_ms,
                            ),
                            ..self.act.action.context
                        },
                        ..self.act.action
                    },
                    ..self.act
                },
            }),
            self.act.wf() ==> r.act.wf(),
    {
        let mut act = self.act;
        match act.action.kind {
            InnerActionKind::Sin(_) => {
                act.action.context.period_ms = period_ms as u64;
            },
            InnerActionKind::Seek(_) => {
                act.action.context.period_ms = period_ms as u64;
            },
            _ => {},
        }
        ActionBuilder { act }
    }

    /// Produce an oscillation that starts low (a sine).
    pub fn sin(self) -> (r: ActionBuilder)
        ensures
            r == (ActionBuilder {
                act: Action {
                    action: InnerAction {
                        kind: InnerActionKind::Sin(Cycler { start_phase: StartPhase::Low }),
                        ..self.act.action
                    },
                    ..self.act
                },
            }),
    {
        let mut sin = Cycler::new();
        sin.start_low();
        let mut act = self.act;
        act.action.kind = InnerActionKind::Sin(sin);
        ActionBuilder { act }
    }

    /// Produce a linear interpolation from the handed-off color.
    pub fn seek(self) -> (r: ActionBuilder)
        ensures
            r == (ActionBuilder {
                act: Action {
                    action: InnerAction { kind: InnerActionKind::Seek(SeekColor), ..self.act.action },
                    ..self.act
                },
            }),
    {
        let mut act = self.act;
        act.action.kind = InnerActionKind::Seek(SeekColor::new());
        ActionBuilder { act }
    }

    /// Produce an oscillation that starts high (a cosine).
    pub fn cos(self) -> (r: ActionBuilder)
        ensures
            r == (ActionBuilder {
                act: Action {
                    action: InnerAction {
                        kind: InnerActionKind::Sin(Cycler { start_phase: StartPhase::High }),
                        ..self.act.action
                    },
                    ..self.act
                },
            }),
    {
        let mut cos = Cycler::new();
        cos.start_high();
        let mut act = self.act;
        act.action.kind = InnerActionKind::Sin(cos);
        ActionBuilder { act }
    }

    /// Produce a constant hold of the target color.
    pub fn solid(self) -> (r: ActionBuilder)
        ensures
            r == (ActionBuilder {
                act: Action {
                    action: InnerAction {
                        kind: InnerActionKind::Static(StayColor),
                        ..self.act.action
                    },
                    ..self.act
                },
            }),
    {
        let mut act = self.act;
        act.action.kind = InnerActionKind::Static(StayColor::new());
        ActionBuilder { act }
    }

    /// Produce a fade from dark up to the target color; the context's
    /// period is pinned to twice its current duration.
    pub fn fade_up(self) -> (r: ActionBuilder)
        ensures
            r == (ActionBuilder {
                act: Action {
                    action: InnerAction {
                        context: Context {
                            period_ms: (self.act.action.context.duration_ms * 2) as u64,
                            ..self.act.action.context
                        },
                        kind: InnerActionKind::Fade(FadeColor {
                            cycler: Cycler { start_phase: StartPhase::Low },
                        }),
                    },
                    ..self.act
                },
            }),
            self.act.wf() ==> r.act.wf(),
    {
        let mut act = self.act;
        let fade = FadeColor::new_fade_up(&mut act.action.context);
        act.action.kind = InnerActionKind::Fade(fade);
        ActionBuilder { act }
    }

    /// Produce a fade from the target color down to dark; the context's
    /// period is pinned to twice its current duration.
    pub fn fade_down(self) -> (r: ActionBuilder)
        ensures
            r == (ActionBuilder {
                act: Action {
                    action: InnerAction {
                        context: Context {
                            period_ms: (self.act.action.context.duration_ms * 2) as u64,
                            ..self.act.action.context
                        },
                        kind: InnerActionKind::Fade(FadeColor {
                            cycler: Cycler { start_phase: StartPhase::High },
                        }),
                    },
                    ..self.act
                },
            }),
            self.act.wf() ==> r.act.wf(),
    {
        let mut act = self.act;
        let fade = FadeColor::new_fade_down(&mut act.action.context);
        act.action.kind = InnerActionKind::Fade(fade);
        ActionBuilder { act }
    }
}

/// How a step's phase offset is configured: a fixed offset in
/// milliseconds, or carried forward from the prior iteration's end phase
/// on every transition or only on the first.
#[derive(Clone, Copy, Debug, PartialEq, Eq, Structural)]
pub enum PhaseIncr {
    /// A fixed phase offset, in milliseconds.
    Millis(u32),
    /// Carry the phase forward on every step transition.
    AutoIncr,
    /// Carry the phase forward on the first step transition only.
    AutoIncrOnStart,
}

impl From<u32> for PhaseIncr {
    /// A plain number of milliseconds is a fixed phase offset.
    fn from(data: u32) -> (r: PhaseIncr) {
        PhaseIncr::Millis(data)
    }
}

impl vstd::std_specs::convert::FromSpecImpl<u32> for PhaseIncr {
    open spec fn obeys_from_spec() -> bool {
        true
    }

    open spec fn from_spec(data: u32) -> PhaseIncr {
        PhaseIncr::Millis(data)
    }
}

} // verus!
