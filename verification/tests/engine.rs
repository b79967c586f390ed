use choreographer::engine::{Action, ActionBuilder, LoopBehavior, PhaseIncr, Sequence};
use choreographer::wave::wave_channel;
use choreographer::Rgb8;

fn hold(color: Rgb8, duration_ms: u32) -> Action {
    ActionBuilder::new()
        .solid()
        .color(color)
        .for_ms(duration_ms)
        .phase_offset_ms(PhaseIncr::Millis(0))
        .once()
        .finish()
}

#[test]
fn truncation_keeps_first_n() {
    let mut s: Sequence<2> = Sequence::empty();
    let steps = [
        hold(Rgb8::new(1, 0, 0), 10),
        hold(Rgb8::new(0, 2, 0), 10),
        hold(Rgb8::new(0, 0, 3), 10),
    ];
    s.set(&steps, LoopBehavior::OneShot);
    assert_eq!(s.len, 2);

    // The two retained steps play; the third was ignored.
    assert_eq!(s.poll(0, 1), Some(Rgb8::new(1, 0, 0)));
    assert_eq!(s.poll(10, 1), Some(Rgb8::new(0, 2, 0)));
    assert_eq!(s.poll(20, 1), None);
}

#[test]
fn loop_count_runs_total_plus_one() {
    let mut s: Sequence<2> = Sequence::empty();
    let steps = [hold(Rgb8::new(9, 9, 9), 100)];
    s.set(&steps, LoopBehavior::LoopN { current: 0, cycles: 2 });

    // One initial pass plus two repeats: colors through [0, 300), then
    // nothing.
    let mut t: u32 = 0;
    let mut completions: u32 = 0;
    let mut was_some = false;
    while t <= 300 {
        let out = s.poll(t, 1);
        if was_some && out.is_none() {
            completions += 1;
        }
        was_some = out.is_some();
        if t < 300 {
            assert_eq!(out, Some(Rgb8::new(9, 9, 9)));
        } else {
            assert_eq!(out, None);
        }
        t += 50;
    }
    assert_eq!(completions, 1);
    match s.behavior {
        LoopBehavior::LoopN { current, cycles } => {
            assert_eq!(current, 2);
            assert_eq!(cycles, 2);
        }
        _ => panic!("policy changed shape"),
    }
}

#[test]
fn phase_auto_advance_accumulates() {
    // A single sine step looped forever with auto-advancing phase: each
    // iteration starts where the last one left the wave, so the output
    // is one continuous wave across iterations.
    let mut s: Sequence<1> = Sequence::empty();
    let steps = [ActionBuilder::new()
        .sin()
        .color(Rgb8::white())
        .for_ms(100)
        .period_ms(400)
        .phase_offset_ms(PhaseIncr::AutoIncr)
        .once()
        .finish()];
    s.set(&steps, LoopBehavior::LoopForever);

    assert_eq!(s.poll(0, 1), Some(Rgb8::black()));
    let v50 = wave_channel(255, 50, 400);
    assert_eq!(s.poll(50, 1), Some(Rgb8::new(v50, v50, v50)));

    // Crossing into the second iteration: the phase offset has advanced
    // by the step's duration, so the wave continues instead of starting
    // over.
    let v100 = wave_channel(255, 100, 400);
    assert_eq!(s.poll(100, 1), Some(Rgb8::new(v100, v100, v100)));
    assert_eq!(s.seq[0].action.context.phase_offset_ms, 100);

    let v150 = wave_channel(255, 150, 400);
    assert_eq!(s.poll(150, 1), Some(Rgb8::new(v150, v150, v150)));

    // With a fixed zero phase the second iteration would restart the
    // wave: same step shape, different sample at the same tick.
    let mut fixed: Sequence<1> = Sequence::empty();
    let steps2 = [ActionBuilder::new()
        .sin()
        .color(Rgb8::white())
        .for_ms(100)
        .period_ms(400)
        .phase_offset_ms(PhaseIncr::Millis(0))
        .once()
        .finish()];
    fixed.set(&steps2, LoopBehavior::LoopForever);
    assert_eq!(fixed.poll(0, 1), Some(Rgb8::black()));
    assert_eq!(fixed.poll(100, 1), Some(Rgb8::black()));
    assert_eq!(fixed.seq[0].action.context.phase_offset_ms, 0);
}

#[test]
fn phase_auto_advance_once_then_fixed() {
    // `AutoIncrOnStart` is consumed by the first transition (here the
    // first-poll seeding) and later transitions no longer advance it.
    let mut s: Sequence<1> = Sequence::empty();
    let steps = [ActionBuilder::new()
        .sin()
        .color(Rgb8::white())
        .for_ms(100)
        .period_ms(400)
        .phase_offset_ms(PhaseIncr::AutoIncrOnStart)
        .once()
        .finish()];
    s.set(&steps, LoopBehavior::LoopForever);

    assert_eq!(s.poll(0, 1), Some(Rgb8::black()));
    // Second iteration: the phase stayed fixed, so the wave restarts.
    assert_eq!(s.poll(100, 1), Some(Rgb8::black()));
    assert_eq!(s.seq[0].action.context.phase_offset_ms, 0);
}

#[test]
fn seek_interpolates_linearly() {
    let mut s: Sequence<2> = Sequence::empty();
    let steps = [
        hold(Rgb8::new(100, 200, 50), 10),
        ActionBuilder::new()
            .seek()
            .color(Rgb8::new(200, 100, 50))
            .for_ms(1000)
            .phase_offset_ms(PhaseIncr::Millis(0))
            .once()
            .finish(),
    ];
    s.set(&steps, LoopBehavior::OneShot);

    assert_eq!(s.poll(0, 1), Some(Rgb8::new(100, 200, 50)));
    // The seek starts from the previous step's target color.
    assert_eq!(s.poll(10, 1), Some(Rgb8::new(100, 200, 50)));
    // A quarter through, rounding toward the start.
    assert_eq!(s.poll(260, 1), Some(Rgb8::new(125, 175, 50)));
    // Halfway through: each channel has moved half its distance.
    assert_eq!(s.poll(510, 1), Some(Rgb8::new(150, 150, 50)));
    assert_eq!(s.poll(1010, 1), None);
}

#[test]
fn zero_duration_step_completes_immediately() {
    let mut s: Sequence<2> = Sequence::empty();
    let steps = [hold(Rgb8::new(7, 7, 7), 0), hold(Rgb8::new(8, 8, 8), 10)];
    s.set(&steps, LoopBehavior::OneShot);

    // The zero-length step is exhausted on the very first poll; the
    // boundary lookahead shows the next step on the same poll.
    assert_eq!(s.poll(5, 1), Some(Rgb8::new(8, 8, 8)));

    // A lone zero-length step polls to None at once, without hanging.
    let mut lone: Sequence<1> = Sequence::empty();
    let steps2 = [hold(Rgb8::new(7, 7, 7), 0)];
    lone.set(&steps2, LoopBehavior::OneShot);
    assert_eq!(lone.poll(5, 1), None);
}

#[test]
fn empty_and_cleared_sequences_poll_none() {
    let mut s: Sequence<4> = Sequence::empty();
    assert_eq!(s.poll(0, 1), None);

    let steps = [hold(Rgb8::new(5, 5, 5), 100)];
    s.set(&steps, LoopBehavior::OneShot);
    assert_eq!(s.poll(0, 1), Some(Rgb8::new(5, 5, 5)));
    s.clear();
    assert_eq!(s.poll(10, 1), None);

    // An array of fresh sequences is idle until loaded.
    let mut banks: [Sequence<4>; 3] = Sequence::new_array();
    for bank in banks.iter_mut() {
        assert_eq!(bank.poll(0, 1), None);
    }
}

#[test]
fn nop_policies_yield_nothing() {
    // A sequence whose overall policy yields immediately shows nothing.
    let mut s: Sequence<2> = Sequence::empty();
    let steps = [hold(Rgb8::new(5, 5, 5), 100)];
    s.set(&steps, LoopBehavior::Nop);
    assert_eq!(s.poll(0, 1), None);
    assert_eq!(s.poll(50, 1), None);

    // A step built without choosing a repeat policy yields immediately
    // too: the builder's default policy is to stand aside.
    let raw = ActionBuilder::new().solid().color(Rgb8::new(5, 5, 5)).for_ms(100).finish();
    let mut s2: Sequence<2> = Sequence::empty();
    let steps2 = [raw];
    s2.set(&steps2, LoopBehavior::OneShot);
    assert_eq!(s2.poll(0, 1), None);
}

#[test]
fn sine_peaks_at_half_period() {
    let mut s: Sequence<1> = Sequence::empty();
    let steps = [ActionBuilder::new()
        .sin()
        .color(Rgb8::white())
        .for_ms(2500)
        .period_ms(2500)
        .phase_offset_ms(PhaseIncr::Millis(0))
        .once()
        .finish()];
    s.set(&steps, LoopBehavior::OneShot);

    assert_eq!(s.poll(0, 1), Some(Rgb8::black()));
    // At half the period the rectified wave reaches full magnitude.
    assert_eq!(s.poll(1250, 1), Some(Rgb8::white()));
}

#[test]
fn cosine_starts_at_full_magnitude() {
    let mut s: Sequence<1> = Sequence::empty();
    let steps = [ActionBuilder::new()
        .cos()
        .color(Rgb8::white())
        .for_ms(100)
        .period_ms(400)
        .phase_offset_ms(PhaseIncr::Millis(0))
        .once()
        .finish()];
    s.set(&steps, LoopBehavior::OneShot);

    assert_eq!(s.poll(0, 1), Some(Rgb8::white()));
    let v = wave_channel(255, 300, 800);
    assert_eq!(v, 235);
    assert_eq!(s.poll(50, 1), Some(Rgb8::new(v, v, v)));
}

#[test]
fn wave_channel_endpoints_and_symmetry() {
    // Dark at both ends of the span, full at the midpoint.
    assert_eq!(wave_channel(255, 0, 100), 0);
    assert_eq!(wave_channel(255, 100, 100), 0);
    assert_eq!(wave_channel(255, 50, 100), 255);
    // Symmetric about the midpoint.
    assert_eq!(wave_channel(255, 30, 100), wave_channel(255, 70, 100));
    assert_eq!(wave_channel(255, 30, 100), 205);
    // Monotone on the rising half.
    let mut prev = 0u8;
    let mut a: u64 = 0;
    while a <= 50 {
        let v = wave_channel(255, a, 100);
        assert!(v >= prev);
        prev = v;
        a += 5;
    }
    // Scaling respects the channel value.
    assert_eq!(wave_channel(0, 25, 100), 0);
    assert!(wave_channel(10, 25, 100) <= 10);
}

#[test]
fn bounded_step_loop_does_not_restart() {
    // A step-level bounded loop retries its exhausted behavior without
    // reinitializing the start tick, so it cannot produce more colors;
    // only a sequence-level loop restarts the timing.
    let step = ActionBuilder::new()
        .solid()
        .color(Rgb8::new(3, 3, 3))
        .for_ms(100)
        .phase_offset_ms(PhaseIncr::Millis(0))
        .times(2)
        .finish();
    let mut s: Sequence<1> = Sequence::empty();
    let steps = [step];
    s.set(&steps, LoopBehavior::OneShot);

    assert_eq!(s.poll(0, 1), Some(Rgb8::new(3, 3, 3)));
    assert_eq!(s.poll(99, 1), Some(Rgb8::new(3, 3, 3)));
    assert_eq!(s.poll(100, 1), None);
}

#[test]
fn fade_period_is_pinned_to_duration() {
    // A fade derives its period from its duration — twice the duration,
    // so the quarter-wave sweep covers the whole step — and a later
    // period setting does not disturb it.
    let act = ActionBuilder::new()
        .fade_up()
        .color(Rgb8::white())
        .for_ms(1000)
        .period_ms(0)
        .finish();
    assert_eq!(act.action.context.period_ms, 2000);

    let act2 = ActionBuilder::new().fade_down().color(Rgb8::white()).for_ms(500).finish();
    assert_eq!(act2.action.context.period_ms, 1000);
}

#[test]
fn phase_incr_from_millis() {
    let p: PhaseIncr = 25u32.into();
    assert_eq!(p, PhaseIncr::Millis(25));
    assert_eq!(PhaseIncr::from(0u32), PhaseIncr::Millis(0));
}

#[test]
fn timer_rate_scales_ticks() {
    // At 1000 ticks per millisecond (a microsecond counter), the same
    // script spans a thousandfold more ticks.
    let mut s: Sequence<1> = Sequence::empty();
    let steps = [hold(Rgb8::new(6, 6, 6), 100)];
    s.set(&steps, LoopBehavior::OneShot);

    assert_eq!(s.poll(0, 1000), Some(Rgb8::new(6, 6, 6)));
    assert_eq!(s.poll(99_999, 1000), Some(Rgb8::new(6, 6, 6)));
    assert_eq!(s.poll(100_000, 1000), None);
}
