use choreographer::engine::{ActionBuilder, LoopBehavior, PhaseIncr, Sequence};
use choreographer::Rgb8;

// The engine is driven by explicit ticks; these tests run it against a
// millisecond counter (one tick per millisecond), advancing by hand.

fn solid(color: Rgb8, duration_ms: u32) -> choreographer::engine::Action {
    ActionBuilder::new()
        .solid()
        .color(color)
        .for_ms(duration_ms)
        .period_ms(0)
        .phase_offset_ms(PhaseIncr::Millis(0))
        .once()
        .finish()
}

#[test]
fn smoke() {
    let mut t: u32 = 0;

    // Create a script for a single LED with up to
    // eight different steps in the sequence
    let mut script: Sequence<8> = Sequence::empty();

    // This script will:
    // * Keep the LED black for 1s
    // * Fade from black to white and back in a sine pattern over 2.5s
    // * Remain at black for 1s
    // * End the sequence
    let steps = [
        solid(Rgb8::black(), 1000),
        ActionBuilder::new()
            .sin()
            .color(Rgb8::white())
            .for_ms(2500)
            .period_ms(2500)
            .phase_offset_ms(PhaseIncr::Millis(0))
            .once()
            .finish(),
        solid(Rgb8::black(), 1000),
    ];
    script.set(&steps, LoopBehavior::OneShot);

    // Stay off for the first 1000ms...
    while t <= 1000 {
        assert_eq!(Some(Rgb8::black()), script.poll(t, 1));
        t += 10;
    }

    let mut last = Rgb8::black();

    // Then monotonically increase for 1/2 of 2500...
    while t <= 2250 {
        let color = script.poll(t, 1).unwrap();
        assert!(color.r >= last.r);
        assert!(color.g >= last.g);
        assert!(color.b >= last.b);
        last = color;

        t += 10;
    }

    // Then monotonically decrease for the second 1/2 of 2500...
    while t <= 3500 {
        let color = script.poll(t, 1).unwrap();
        println!("last: {:?}, color: {:?}", last, color);
        assert!(color.r <= last.r);
        assert!(color.g <= last.g);
        assert!(color.b <= last.b);
        last = color;

        t += 10;
    }

    // Then stay off for 1000ms
    while t < 4500 {
        assert_eq!(Some(Rgb8::black()), script.poll(t, 1));
        t += 10;
    }

    // At 4500, we're done!
    assert_eq!(t, 4500);
    assert!(script.poll(t, 1).is_none());
}

#[test]
fn fade_up() {
    let mut t: u32 = 0;

    // One step: fade from black up to white over one second.
    let mut script: Sequence<8> = Sequence::empty();
    let steps = [ActionBuilder::new()
        .fade_up()
        .color(Rgb8::white())
        .for_ms(1000)
        .period_ms(0)
        .phase_offset_ms(PhaseIncr::Millis(0))
        .once()
        .finish()];
    script.set(&steps, LoopBehavior::OneShot);

    let mut last = script.poll(t, 1).unwrap();
    assert_eq!(last, Rgb8::black());

    while t < 1000 {
        let color = script.poll(t, 1).unwrap();
        assert!(color.r >= last.r);
        assert!(color.g >= last.g);
        assert!(color.b >= last.b);
        last = color;

        t += 10;
    }

    // The last sample before the step exhausts, at 990 of 1000 ms, sits
    // just below full brightness.
    assert_eq!(last, Rgb8::new(254, 254, 254));

    assert_eq!(t, 1000);
    assert!(script.poll(t, 1).is_none());
}

#[test]
fn fade_down() {
    let mut t: u32 = 0;

    // Show white briefly, then fade from white down to black over one
    // second.
    let mut script: Sequence<8> = Sequence::empty();
    let steps = [
        solid(Rgb8::white(), 10),
        ActionBuilder::new()
            .fade_down()
            .color(Rgb8::white())
            .for_ms(1000)
            .period_ms(0)
            .phase_offset_ms(PhaseIncr::Millis(0))
            .once()
            .finish(),
    ];
    script.set(&steps, LoopBehavior::OneShot);

    let mut last = script.poll(t, 1).unwrap();
    assert_eq!(last, Rgb8::white());
    t += 10;

    while t < 1010 {
        let color = script.poll(t, 1).unwrap();
        println!("last: {:?}, color: {:?}", last, color);
        assert!(color.r <= last.r);
        assert!(color.g <= last.g);
        assert!(color.b <= last.b);
        last = color;

        t += 10;
    }

    // The last sample before the step exhausts, at 990 of its 1000 ms,
    // sits just above black.
    assert_eq!(last, Rgb8::new(4, 4, 4));
    assert_eq!(t, 1010);
    assert!(script.poll(t, 1).is_none());
}

#[test]
fn foo() {
    // The doc-style walkthrough: load the three-step script and poll it
    // at a 10 ms cadence until it reports completion.
    let mut script: Sequence<8> = Sequence::empty();
    let steps = [
        solid(Rgb8::black(), 1000),
        ActionBuilder::new()
            .sin()
            .color(Rgb8::white())
            .for_ms(2500)
            .period_ms(2500)
            .phase_offset_ms(PhaseIncr::Millis(0))
            .once()
            .finish(),
        solid(Rgb8::black(), 1000),
    ];
    script.set(&steps, LoopBehavior::OneShot);

    let mut t: u32 = 0;
    while let Some(_color) = script.poll(t, 1) {
        t += 10;
    }

    // The three steps cover 1000 + 2500 + 1000 ms; the first poll with
    // nothing to show comes exactly at their sum.
    assert_eq!(t, 4500);
}
