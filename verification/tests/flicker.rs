use flickerled::flicker::{
    Blink, BlinkRate, FlickerParams, FlickerSequence, FlickerState, BRIGHT_SCALE, HALF_SCALE,
};
use rand::SeedableRng;
use rand_distr::Distribution;

fn params(min: u64, max: u64, rate: BlinkRate) -> FlickerParams {
    FlickerParams::new(100, 1000, min, max, rate, 300, 50)
}

#[test]
fn scale_constants_are_consistent() {
    assert_eq!(BRIGHT_SCALE, 10000);
    assert_eq!(HALF_SCALE, BRIGHT_SCALE / 2);
}

#[test]
fn baseline_hits_exact_values() {
    let p = params(1000, 9000, BlinkRate::Never);
    // At position 0 the phase fraction is a whole wave: the sine is 0 and
    // the baseline sits exactly midway between the bounds.
    assert_eq!(p.scaled_sin(0), 5000);
    // A quarter period before the wrap the sine crests: exactly the
    // maximum.
    assert_eq!(p.scaled_sin(750), 9000);
    // A quarter period after the wrap the sine bottoms out: exactly the
    // minimum.
    assert_eq!(p.scaled_sin(250), 1000);
    // One step in: fraction 9000/10000 of the wave, sine -5871 of 10000,
    // interpolated to 1000 + 8000 * 4129 / 20000.
    assert_eq!(p.scaled_sin(100), 2651);
}

#[test]
fn baseline_stays_within_bounds_everywhere() {
    let p = params(2000, 7000, BlinkRate::Never);
    for t in 0..1000 {
        let b = p.scaled_sin(t);
        assert!((2000..=7000).contains(&b), "t={} b={}", t, b);
    }
}

#[test]
fn no_blinks_means_baseline_forever() {
    // With the onset rate Never, a long run is exactly the sine baseline
    // at every step: no spurious blinks.
    let p = params(1000, 9000, BlinkRate::Never);
    let mut seq = FlickerSequence::new(p);
    let mut t: u64 = 0;
    for _ in 0..200 {
        let b = seq.advance(100, None, 0);
        t = (t + 100) % 1000;
        assert_eq!(b, p.scaled_sin(t));
    }
}

#[test]
fn always_blink_drops_to_minimum() {
    // An onset draw of 0 falls within any step, so the step right after
    // the start enters a blink and returns exactly the minimum.
    let p = params(1000, 9000, BlinkRate::MeanMillis(0));
    let mut seq = FlickerSequence::new(p);
    let b = seq.advance(100, Some(0), 300);
    assert_eq!(b, 1000);
}

#[test]
fn blink_expires_and_baseline_returns() {
    let p = params(1000, 9000, BlinkRate::MeanMillis(500));
    let mut st = FlickerState { time: 0, blink: None };
    // A blink starts at position 100 and runs 150 milliseconds.
    let b = st.step(&p, 100, Some(50), 150);
    assert_eq!(b, 1000);
    assert_eq!(st.blink, Some(Blink { start_millis: 100, end_millis: 250 }));
    // Still covered at position 200.
    let b = st.step(&p, 100, None, 0);
    assert_eq!(b, 1000);
    assert_eq!(st.time, 200);
    // At position 300 the blink has ended: cleared, baseline again.
    let b = st.step(&p, 100, None, 0);
    assert_eq!(st.time, 300);
    assert_eq!(st.blink, None);
    assert_eq!(b, p.scaled_sin(300));
}

#[test]
fn zero_length_blink_never_covers() {
    let p = params(1000, 9000, BlinkRate::MeanMillis(1));
    let mut st = FlickerState { time: 0, blink: None };
    // Duration 0 makes an empty interval: the baseline shows through.
    let b = st.step(&p, 100, Some(0), 0);
    assert_eq!(b, p.scaled_sin(100));
}

#[test]
fn round_trip_returns_to_first_value() {
    // Wave period 1000 ms, bounds 0.1 and 0.9 of full scale, no blinks:
    // ten steps of 100 ms walk once around the wave, and the eleventh call
    // returns exactly the first call's value.
    let p = params(1000, 9000, BlinkRate::Never);
    let mut seq = FlickerSequence::new(p);
    let first = seq.advance(100, None, 0);
    for _ in 0..9 {
        seq.advance(100, None, 0);
    }
    let eleventh = seq.advance(100, None, 0);
    assert_eq!(first, eleventh);
}

#[test]
fn time_wraps_modulo_period() {
    let p = params(1000, 9000, BlinkRate::Never);
    let mut st = FlickerState { time: 0, blink: None };
    st.step(&p, 2350, None, 0);
    assert_eq!(st.time, 350);
}

#[test]
fn seeded_runs_are_reproducible() {
    // Two runs fed from identically seeded random sources produce the
    // same brightness sequence: the generator is a deterministic map of
    // its draws.
    let run = |seed: u64| -> Vec<u64> {
        let mut rng = rand::rngs::StdRng::seed_from_u64(seed);
        let onset_dist = rand_distr::Exp::new(1.0f32 / 400.0).unwrap();
        let dur_dist = rand_distr::Normal::new(300.0f32, 50.0).unwrap();
        let p = params(1000, 9000, BlinkRate::MeanMillis(400));
        let mut seq = FlickerSequence::new(p);
        let mut out = Vec::new();
        for _ in 0..100 {
            let onset = onset_dist.sample(&mut rng) as u64;
            let duration = dur_dist.sample(&mut rng) as u64;
            out.push(seq.advance(100, Some(onset), duration));
        }
        out
    };
    assert_eq!(run(7), run(7));
}
