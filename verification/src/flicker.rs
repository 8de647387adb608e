//! A stochastic brightness generator.
//!
//! Flickering is simulated as a deterministic sine baseline interrupted by
//! randomly timed, randomly sized dropouts ("blinks"): a sine wave of
//! brightness between a minimum and a maximum, one full period per
//! `wave_period_millis`, which drops to the minimum for a random duration
//! whenever the blink-onset process fires. Times are integer milliseconds
//! on a circular clock (positions wrap modulo the wave period); brightness
//! is a fixed-point fraction of full output in units of `1/BRIGHT_SCALE`.
//!
//! Every step is a deterministic map once the random draws are fixed:
//! `FlickerState::step` and `FlickerSequence::advance` take each step's
//! draws as plain millisecond values, so a run driven from a seeded random
//! source is reproducible from its seed.

use vstd::arithmetic::div_mod::{
    lemma_add_mod_noop, lemma_div_is_ordered, lemma_div_multiples_vanish, lemma_div_pos_is_pos,
    lemma_fundamental_div_mod, lemma_mod_division_less_than_divisor, lemma_small_mod,
};
use vstd::prelude::*;

verus! {

/// Full brightness in fixed-point units: a brightness `b` means the
/// fraction `b / BRIGHT_SCALE` of the indicator's full output.
pub const BRIGHT_SCALE: u64 = 10000;

/// Half of `BRIGHT_SCALE`; one half-wave of the sine spans this many
/// fixed-point phase units.
pub const HALF_SCALE: u64 = 5000;

/// How often blinks begin: the mean inter-arrival time of blink onsets.
/// `MeanMillis(0)` makes a blink begin at every opportunity; `Never`
/// disables blinks entirely (an infinite mean).
#[derive(Clone, Copy, PartialEq, Eq, Structural, Debug)]
pub enum BlinkRate {
    Never,
    MeanMillis(u64),
}

/// The immutable parameters of one flicker simulation. Constructed once
/// per indicator from configuration via `new`, which admits only valid
/// combinations.
#[derive(Clone, Copy, PartialEq, Eq, Structural, Debug)]
pub struct FlickerParams {
    /// How long one simulation step is meant to be, in milliseconds.
    pub time_step_millis: u64,
    /// Sine wave period, in milliseconds.
    pub wave_period_millis: u64,
    /// Minimum brightness of the sine wave, in units of `1/BRIGHT_SCALE`.
    pub min_brightness: u64,
    /// Maximum brightness of the sine wave, in units of `1/BRIGHT_SCALE`.
    pub max_brightness: u64,
    /// Mean inter-arrival time of blink onsets.
    pub blink_rate: BlinkRate,
    /// Mean of the blink duration distribution, in milliseconds.
    pub blink_duration_mean_millis: u64,
    /// Spread of the blink duration distribution, in milliseconds.
    pub blink_duration_std_dev_millis: u64,
}

impl FlickerParams {
    /// Valid parameters: a positive step shorter than the wave period, a
    /// period small enough that phase arithmetic fits the machine word, and
    /// ordered brightness bounds within scale.
    pub open spec fn wf(self) -> bool {
        &&& 0 < self.time_step_millis < self.wave_period_millis
        &&& self.wave_period_millis <= u64::MAX / BRIGHT_SCALE
        &&& self.min_brightness <= self.max_brightness <= BRIGHT_SCALE
    }

    /// Bundle validated parameters. Invalid combinations are a
    /// configuration error, rejected before a generator is built, and are
    /// kept out here by precondition.
    pub fn new(
        time_step_millis: u64,
        wave_period_millis: u64,
        min_brightness: u64,
        max_brightness: u64,
        blink_rate: BlinkRate,
        blink_duration_mean_millis: u64,
        blink_duration_std_dev_millis: u64,
    ) -> (p: FlickerParams)
        requires
            0 < time_step_millis < wave_period_millis,
            wave_period_millis <= u64::MAX / BRIGHT_SCALE,
            min_brightness <= max_brightness <= BRIGHT_SCALE,
        ensures
            p == (FlickerParams {
                time_step_millis,
                wave_period_millis,
                min_brightness,
                max_brightness,
                blink_rate,
                blink_duration_mean_millis,
                blink_duration_std_dev_millis,
            }),
            p.wf(),
    {
        FlickerParams {
            time_step_millis,
            wave_period_millis,
            min_brightness,
            max_brightness,
            blink_rate,
            blink_duration_mean_millis,
            blink_duration_std_dev_millis,
        }
    }
}

/// One half-wave of the scaled sine: for `x` in `[0, HALF_SCALE]`, the
/// value of `sin(pi * x / HALF_SCALE)` in units of `1/BRIGHT_SCALE`, by the
/// rational approximation `16 y (1 - y) / (5 - 4 y (1 - y))` with
/// `y = x / HALF_SCALE`, which is exact at 0, the crest and the end.
pub open spec fn sine_half(x: int) -> int {
    (16 * x * (HALF_SCALE - x) * BRIGHT_SCALE) / (5 * HALF_SCALE * HALF_SCALE - 4 * x * (
    HALF_SCALE - x))
}

/// The scaled sine over a whole wave: `frac` ranges over
/// `[0, BRIGHT_SCALE]` as the fraction of the period, and the result lies
/// in `[-BRIGHT_SCALE, BRIGHT_SCALE]`, positive on the first half-wave and
/// negative on the second.
pub open spec fn sine_signed(frac: int) -> int {
    if frac <= HALF_SCALE {
        sine_half(frac)
    } else {
        -sine_half(frac - HALF_SCALE)
    }
}

/// Linear interpolation between `low` and `high` by the fraction
/// `num / den`: the integer counterpart of `low + x * (high - low)`.
pub open spec fn lerp_spec(low: int, high: int, num: int, den: int) -> int {
    low + (high - low) * num / den
}

/// The sine half-wave stays within `[0, BRIGHT_SCALE]`.
pub proof fn lemma_sine_half_bounds(x: int)
    requires
        0 <= x <= HALF_SCALE,
    ensures
        0 <= sine_half(x) <= BRIGHT_SCALE,
{
    let h = HALF_SCALE as int;
    let sc = BRIGHT_SCALE as int;
    let u = x * (h - x);
    assert(0 <= x * (h - x) && 4 * (x * (h - x)) <= h * h) by (nonlinear_arith)
        requires
            0 <= x <= h,
    ;
    let num = 16 * u * sc;
    let den = 5 * h * h - 4 * u;
    assert(num >= 0) by (nonlinear_arith)
        requires
            u >= 0,
            sc > 0,
            num == 16 * u * sc,
    ;
    assert(num <= sc * den) by (nonlinear_arith)
        requires
            4 * u <= h * h,
            num == 16 * u * sc,
            den == 5 * h * h - 4 * u,
            sc > 0,
    ;
    lemma_div_pos_is_pos(num, den);
    lemma_div_is_ordered(num, sc * den, den);
    lemma_div_multiples_vanish(sc, den);
    assert(den * sc == sc * den) by (nonlinear_arith);
    assert(16 * x * (h - x) * sc == num) by (nonlinear_arith)
        requires
            u == x * (h - x),
            num == 16 * u * sc,
    ;
    assert(5 * h * h - 4 * x * (h - x) == den) by (nonlinear_arith)
        requires
            u == x * (h - x),
            den == 5 * h * h - 4 * u,
    ;
}

/// The full scaled sine stays within `[-BRIGHT_SCALE, BRIGHT_SCALE]`.
pub proof fn lemma_sine_signed_bounds(frac: int)
    requires
        0 <= frac <= BRIGHT_SCALE,
    ensures
        -BRIGHT_SCALE <= sine_signed(frac) <= BRIGHT_SCALE,
{
    if frac <= HALF_SCALE {
        lemma_sine_half_bounds(frac);
    } else {
        lemma_sine_half_bounds(frac - HALF_SCALE);
    }
}

/// Executable half-wave sine, proved equal to `sine_half`.
fn sine_half_exec(x: u64) -> (r: u64)
    requires
        x <= HALF_SCALE,
    ensures
        r as int == sine_half(x as int),
        r <= BRIGHT_SCALE,
{
    proof {
        lemma_sine_half_bounds(x as int);
    }
    assert(x * (HALF_SCALE - x) <= HALF_SCALE * HALF_SCALE) by (nonlinear_arith)
        requires
            0 <= x <= HALF_SCALE,
    ;
    let u = x * (HALF_SCALE - x);
    let num = 16 * u * BRIGHT_SCALE;
    let den = 5 * HALF_SCALE * HALF_SCALE - 4 * u;
    proof {
        let xi = x as int;
        let h = HALF_SCALE as int;
        let sc = BRIGHT_SCALE as int;
        assert(16 * xi * (h - xi) * sc == 16 * (xi * (h - xi)) * sc) by (nonlinear_arith);
        assert(4 * xi * (h - xi) == 4 * (xi * (h - xi))) by (nonlinear_arith);
    }
    num / den
}

/// Executable full-wave sine, proved equal to `sine_signed`.
fn sine_signed_exec(frac: u64) -> (r: i64)
    requires
        frac <= BRIGHT_SCALE,
    ensures
        r as int == sine_signed(frac as int),
        -(BRIGHT_SCALE as i64) <= r <= BRIGHT_SCALE as i64,
{
    if frac <= HALF_SCALE {
        sine_half_exec(frac) as i64
    } else {
        -(sine_half_exec(frac - HALF_SCALE) as i64)
    }
}

/// Executable linear interpolation, proved equal to `lerp_spec` and to lie
/// within `[low, high]`.
fn lerp(low: u64, high: u64, num: u64, den: u64) -> (r: u64)
    requires
        low <= high <= BRIGHT_SCALE,
        num <= den,
        0 < den <= 2 * BRIGHT_SCALE,
    ensures
        r as int == lerp_spec(low as int, high as int, num as int, den as int),
        low <= r <= high,
{
    let span = high - low;
    proof {
        assert(span * num <= BRIGHT_SCALE * (2 * BRIGHT_SCALE)) by (nonlinear_arith)
            requires
                0 <= span <= BRIGHT_SCALE,
                0 <= num <= 2 * BRIGHT_SCALE,
        ;
    }
    let scaled = span * num / den;
    proof {
        lemma_div_pos_is_pos(span as int * num as int, den as int);
        assert(span as int * num as int <= span as int * den as int) by (nonlinear_arith)
            requires
                num <= den,
                span >= 0,
        ;
        lemma_div_is_ordered(span as int * num as int, span as int * den as int, den as int);
        lemma_div_multiples_vanish(span as int, den as int);
        assert(den as int * span as int == span as int * den as int) by (nonlinear_arith);
    }
    low + scaled
}

/// The brightness baseline at time position `t` within the wave: the
/// scaled sine at the phase fraction `(wave_period - t) / wave_period`,
/// interpolated linearly into `[min_brightness, max_brightness]`.
pub open spec fn scaled_sin_spec(p: FlickerParams, t: int) -> int {
    let frac = ((p.wave_period_millis - t) * BRIGHT_SCALE) / (p.wave_period_millis as int);
    lerp_spec(
        p.min_brightness as int,
        p.max_brightness as int,
        sine_signed(frac) + BRIGHT_SCALE,
        2 * BRIGHT_SCALE,
    )
}

impl FlickerParams {
    /// The sine baseline, scaled to this parameter set: the executable
    /// counterpart of `scaled_sin_spec`, always within the brightness
    /// bounds.
    pub fn scaled_sin(&self, t: u64) -> (b: u64)
        requires
            self.wf(),
            t < self.wave_period_millis,
        ensures
            b as int == scaled_sin_spec(*self, t as int),
            self.min_brightness <= b <= self.max_brightness,
    {
        let period = self.wave_period_millis;
        proof {
            assert((period - t) * BRIGHT_SCALE <= period * BRIGHT_SCALE) by (nonlinear_arith)
                requires
                    0 <= period - t <= period,
                    BRIGHT_SCALE > 0,
            ;
            assert(period * BRIGHT_SCALE <= u64::MAX) by (nonlinear_arith)
                requires
                    period <= u64::MAX / BRIGHT_SCALE,
                    BRIGHT_SCALE > 0,
                    u64::MAX / BRIGHT_SCALE == (u64::MAX as int) / (BRIGHT_SCALE as int),
            ;
            lemma_div_pos_is_pos((period - t) as int * BRIGHT_SCALE as int, period as int);
            lemma_div_is_ordered(
                (period - t) as int * BRIGHT_SCALE as int,
                period as int * BRIGHT_SCALE as int,
                period as int,
            );
            lemma_div_multiples_vanish(BRIGHT_SCALE as int, period as int);
            assert(period as int * BRIGHT_SCALE as int == BRIGHT_SCALE as int * period as int)
                by (nonlinear_arith);
        }
        let frac = (period - t) * BRIGHT_SCALE / period;
        let s = sine_signed_exec(frac);
        proof {
            lemma_sine_signed_bounds(frac as int);
        }
        let shifted = (s + BRIGHT_SCALE as i64) as u64;
        lerp(self.min_brightness, self.max_brightness, shifted, 2 * BRIGHT_SCALE)
    }
}

/// A dropout interval on the circular clock: brightness is forced to the
/// minimum while the position lies in `[start_millis, end_millis)`.
#[derive(Clone, Copy, PartialEq, Eq, Structural, Debug)]
pub struct Blink {
    /// Where the blink began.
    pub start_millis: u64,
    /// Where the blink ends (exclusive), saturating at the top of the clock.
    pub end_millis: u64,
}

/// Where one simulation stands: the current position within the wave, and
/// the active blink interval, if any, on the same circular clock. Owned
/// exclusively by the generator driving one indicator.
#[derive(Clone, Copy, PartialEq, Eq, Structural, Debug)]
pub struct FlickerState {
    /// Current time position, wrapped modulo the wave period.
    pub time: u64,
    /// The active blink interval, if one is running.
    pub blink: Option<Blink>,
}

/// Addition that stops at the top of the clock instead of wrapping: blink
/// ends saturate rather than overflow.
pub open spec fn sat_add(a: int, b: int) -> int {
    if a + b > u64::MAX {
        u64::MAX as int
    } else {
        a + b
    }
}

/// The state and brightness one step yields, once the random draws are
/// fixed: `onset` is the sampled time until the next blink onset (`None`
/// when no draw was made because blinks are disabled), `duration` the
/// sampled blink length. The new position is the old plus `delta`, wrapped;
/// an expired blink is cleared; with no blink running, a blink starts
/// exactly when the sampled onset falls within this step; and the
/// brightness is the minimum while a blink covers the position, the sine
/// baseline otherwise.
pub open spec fn step_spec(
    p: FlickerParams,
    st: FlickerState,
    delta: int,
    onset: Option<u64>,
    duration: u64,
) -> (FlickerState, int) {
    let t = ((st.time + delta) % (p.wave_period_millis as int)) as u64;
    let kept = match st.blink {
        Some(bl) => if bl.end_millis < t {
            None
        } else {
            Some(bl)
        },
        None => None,
    };
    let started = match (kept, onset) {
        (None, Some(o)) => if o <= delta {
            Some(
                Blink {
                    start_millis: t,
                    end_millis: sat_add(t as int, duration as int) as u64,
                },
            )
        } else {
            None
        },
        _ => kept,
    };
    let b = match started {
        Some(bl) => if bl.start_millis <= t < bl.end_millis {
            p.min_brightness as int
        } else {
            scaled_sin_spec(p, t as int)
        },
        None => scaled_sin_spec(p, t as int),
    };
    (FlickerState { time: t, blink: started }, b)
}

impl FlickerState {
    /// One simulation step with every random draw supplied by the caller:
    /// a deterministic map, exactly `step_spec`. `delta` must be positive
    /// (a non-positive step is a caller bug, kept out by precondition) and
    /// small enough that the position arithmetic fits the machine word.
    pub fn step(&mut self, p: &FlickerParams, delta: u64, onset: Option<u64>, duration: u64) -> (b:
        u64)
        requires
            p.wf(),
            old(self).time < p.wave_period_millis,
            0 < delta <= u64::MAX - p.wave_period_millis,
        ensures
            (*final(self), b as int) == step_spec(*p, *old(self), delta as int, onset, duration),
            final(self).time < p.wave_period_millis,
            p.min_brightness <= b <= p.max_brightness,
    {
        proof {
            lemma_mod_division_less_than_divisor(
                old(self).time + delta,
                p.wave_period_millis as int,
            );
        }
        self.time = (self.time + delta) % p.wave_period_millis;
        let t = self.time;
        let expired = match self.blink {
            Some(bl) => bl.end_millis < t,
            None => false,
        };
        if expired {
            self.blink = None;
        }
        if self.blink.is_none() {
            match onset {
                Some(o) => {
                    if o <= delta {
                        self.blink = Some(
                            Blink { start_millis: t, end_millis: t.saturating_add(duration) },
                        );
                    }
                },
                None => {},
            }
        }
        let covered = match self.blink {
            Some(bl) => bl.start_millis <= t && t < bl.end_millis,
            None => false,
        };
        if covered {
            p.min_brightness
        } else {
            p.scaled_sin(t)
        }
    }
}

/// A flicker simulation bound to one indicator: the immutable parameters
/// and the evolving state. The random draws that shape blinks are typed as
/// floating-point by the random-source collaborator, which this verified
/// core cannot hold; `advance` therefore takes each step's draws as plain
/// millisecond values, and the runtime around the library (or a test)
/// produces them from a seeded source, which keeps a run reproducible from
/// its seed.
pub struct FlickerSequence {
    params: FlickerParams,
    state: FlickerState,
}

impl FlickerSequence {
    /// The parameter set the sequence was built with.
    pub closed spec fn params(self) -> FlickerParams {
        self.params
    }

    /// The current simulation state.
    pub closed spec fn state(self) -> FlickerState {
        self.state
    }

    /// Valid parameters, and a time position within the wave.
    pub open spec fn wf(self) -> bool {
        &&& self.params().wf()
        &&& self.state().time < self.params().wave_period_millis
    }

    /// A fresh simulation at position zero with no blink running.
    pub fn new(params: FlickerParams) -> (s: Self)
        requires
            params.wf(),
        ensures
            s.wf(),
            s.params() == params,
            s.state() == (FlickerState { time: 0, blink: None::<Blink> }),
    {
        FlickerSequence { params, state: FlickerState { time: 0, blink: None } }
    }

    /// Advance the simulation by `delta_millis` and return the brightness
    /// at the new position: exactly `step_spec` on this step's random
    /// draws. A non-positive step is a caller bug, kept out by
    /// precondition. `onset_sample` is the drawn time until the next blink
    /// onset — `None` when the blink rate is `Never`, which disables the
    /// onset process, so a caller may draw nothing; `duration_sample` is
    /// the drawn blink length, ignored unless a blink starts this step.
    ///
    /// Whatever was drawn, the position advances by exactly `delta_millis`
    /// (wrapped modulo the wave period) and the brightness stays within the
    /// configured bounds. With blinks disabled and no blink running the
    /// result is exactly the sine baseline; when a blink-free step draws an
    /// onset within the step and a positive duration, the blink covers the
    /// new position and the result is exactly the minimum brightness.
    pub fn advance(
        &mut self,
        delta_millis: u64,
        onset_sample: Option<u64>,
        duration_sample: u64,
    ) -> (b: u64)
        requires
            old(self).wf(),
            0 < delta_millis <= u64::MAX - old(self).params().wave_period_millis,
            old(self).params().blink_rate == BlinkRate::Never ==> onset_sample is None,
        ensures
            final(self).wf(),
            final(self).params() == old(self).params(),
            (final(self).state(), b as int) == step_spec(
                old(self).params(),
                old(self).state(),
                delta_millis as int,
                onset_sample,
                duration_sample,
            ),
            final(self).state().time == (old(self).state().time + delta_millis) % (old(
                self,
            ).params().wave_period_millis as int),
            old(self).params().min_brightness <= b <= old(self).params().max_brightness,
            old(self).params().blink_rate == BlinkRate::Never && old(self).state().blink is None
                ==> final(self).state().blink is None && b as int == scaled_sin_spec(
                old(self).params(),
                final(self).state().time as int,
            ),
            ({
                &&& old(self).state().blink is None
                &&& onset_sample matches Some(o) && o <= delta_millis
                &&& duration_sample >= 1
            }) ==> b == old(self).params().min_brightness,
    {
        self.state.step(&self.params, delta_millis, onset_sample, duration_sample)
    }
}

/// The brightness outputs of a run in which no onset is ever drawn — a
/// generator whose blink rate is `Never` — stepping from `st` through the
/// given step lengths.
pub open spec fn no_blink_run(p: FlickerParams, st: FlickerState, deltas: Seq<int>) -> Seq<int>
    decreases deltas.len(),
{
    if deltas.len() == 0 {
        Seq::empty()
    } else {
        let out = step_spec(p, st, deltas[0], None::<u64>, 0);
        seq![out.1] + no_blink_run(p, out.0, deltas.drop_first())
    }
}

/// A run with blinks disabled shows the sine baseline at every one of its
/// steps, however long it is: from a blink-free state, the k-th output is
/// the baseline at the position the first k+1 steps reach.
pub proof fn lemma_never_run_is_baseline(p: FlickerParams, st: FlickerState, deltas: Seq<int>)
    requires
        p.wf(),
        st.blink is None,
    ensures
        no_blink_run(p, st, deltas).len() == deltas.len(),
        forall|k: int|
            0 <= k < deltas.len() ==> no_blink_run(p, st, deltas)[k] == scaled_sin_spec(
                p,
                time_after(st.time as int, deltas.take(k + 1), p.wave_period_millis as int),
            ),
    decreases deltas.len(),
{
    if deltas.len() > 0 {
        let period = p.wave_period_millis as int;
        let out = step_spec(p, st, deltas[0], None::<u64>, 0);
        let rest = deltas.drop_first();
        lemma_mod_division_less_than_divisor(st.time + deltas[0], period);
        lemma_never_run_is_baseline(p, out.0, rest);
        let run = no_blink_run(p, st, deltas);
        assert forall|k: int| 0 <= k < deltas.len() implies run[k] == scaled_sin_spec(
            p,
            time_after(st.time as int, deltas.take(k + 1), period),
        ) by {
            let taken = deltas.take(k + 1);
            assert(taken.len() == k + 1);
            assert(taken[0] == deltas[0]);
            assert(time_after(st.time as int, taken, period) == time_after(
                (st.time + deltas[0]) % period,
                taken.drop_first(),
                period,
            ));
            assert(out.0.time as int == (st.time + deltas[0]) % period);
            if k == 0 {
                assert(taken.drop_first() =~= Seq::<int>::empty());
                assert(time_after(out.0.time as int, taken.drop_first(), period) == out.0.time);
            } else {
                assert(run[k] == no_blink_run(p, out.0, rest)[k - 1]);
                assert(taken.drop_first() =~= rest.take(k));
            }
        }
    }
}

/// Round trip at the run level: in a run with blinks disabled, any two
/// steps whose step lengths sum to the same position modulo the wave
/// period show the same brightness. In particular, steps one whole period
/// apart return exactly the first value.
pub proof fn lemma_run_outputs_repeat(
    p: FlickerParams,
    st: FlickerState,
    deltas: Seq<int>,
    a: int,
    b: int,
)
    requires
        p.wf(),
        st.blink is None,
        st.time < p.wave_period_millis,
        forall|i: int| 0 <= i < deltas.len() ==> deltas[i] >= 0,
        0 <= a < deltas.len(),
        0 <= b < deltas.len(),
        sum_of(deltas.take(a + 1)) % (p.wave_period_millis as int) == sum_of(deltas.take(b + 1))
            % (p.wave_period_millis as int),
    ensures
        no_blink_run(p, st, deltas)[a] == no_blink_run(p, st, deltas)[b],
{
    let period = p.wave_period_millis as int;
    let t0 = st.time as int;
    lemma_never_run_is_baseline(p, st, deltas);
    assert forall|i: int| 0 <= i < deltas.take(a + 1).len() implies #[trigger] deltas.take(a + 1)[i]
        >= 0 by {
        assert(deltas.take(a + 1)[i] == deltas[i]);
    }
    assert forall|i: int| 0 <= i < deltas.take(b + 1).len() implies #[trigger] deltas.take(b + 1)[i]
        >= 0 by {
        assert(deltas.take(b + 1)[i] == deltas[i]);
    }
    lemma_time_wraps_to_sum(t0, deltas.take(a + 1), period);
    lemma_time_wraps_to_sum(t0, deltas.take(b + 1), period);
    let sa = sum_of(deltas.take(a + 1));
    let sb = sum_of(deltas.take(b + 1));
    lemma_add_mod_noop(t0, sa, period);
    lemma_add_mod_noop(t0, sb, period);
    lemma_small_mod(t0 as nat, period as nat);
}

/// The sum of a sequence of step lengths.
pub open spec fn sum_of(deltas: Seq<int>) -> int
    decreases deltas.len(),
{
    if deltas.len() == 0 {
        0
    } else {
        deltas[0] + sum_of(deltas.drop_first())
    }
}

/// The time position reached after a sequence of steps, each wrapping
/// modulo the wave period.
pub open spec fn time_after(t0: int, deltas: Seq<int>, period: int) -> int
    decreases deltas.len(),
{
    if deltas.len() == 0 {
        t0
    } else {
        time_after((t0 + deltas[0]) % period, deltas.drop_first(), period)
    }
}

/// Stepping wraps but never drifts: after any sequence of steps the
/// position equals the starting position plus the sum of the step lengths,
/// modulo the wave period.
pub proof fn lemma_time_wraps_to_sum(t0: int, deltas: Seq<int>, period: int)
    requires
        period > 0,
        0 <= t0 < period,
        forall|i: int| 0 <= i < deltas.len() ==> deltas[i] >= 0,
    ensures
        time_after(t0, deltas, period) == (t0 + sum_of(deltas)) % period,
    decreases deltas.len(),
{
    if deltas.len() == 0 {
        lemma_small_mod(t0 as nat, period as nat);
    } else {
        let d0 = deltas[0];
        let rest = deltas.drop_first();
        let a = (t0 + d0) % period;
        lemma_mod_division_less_than_divisor(t0 + d0, period);
        lemma_time_wraps_to_sum(a, rest, period);
        let s = sum_of(rest);
        assert(s >= 0) by {
            lemma_sum_of_nonneg(rest);
        }
        lemma_add_mod_noop(a, s, period);
        lemma_small_mod(a as nat, period as nat);
        lemma_add_mod_noop(t0 + d0, s, period);
    }
}

/// A sequence of nonnegative step lengths has a nonnegative sum.
pub proof fn lemma_sum_of_nonneg(deltas: Seq<int>)
    requires
        forall|i: int| 0 <= i < deltas.len() ==> deltas[i] >= 0,
    ensures
        sum_of(deltas) >= 0,
    decreases deltas.len(),
{
    if deltas.len() > 0 {
        lemma_sum_of_nonneg(deltas.drop_first());
    }
}

/// Round trip: steps summing to a whole number of wave periods return the
/// position to where it began, and with it the sine baseline — a
/// blink-free generator driven around the wave comes back to its first
/// brightness exactly.
pub proof fn lemma_baseline_periodic(p: FlickerParams, t0: int, deltas: Seq<int>)
    requires
        p.wf(),
        0 <= t0 < p.wave_period_millis,
        forall|i: int| 0 <= i < deltas.len() ==> deltas[i] >= 0,
        sum_of(deltas) % (p.wave_period_millis as int) == 0,
    ensures
        time_after(t0, deltas, p.wave_period_millis as int) == t0,
        scaled_sin_spec(p, time_after(t0, deltas, p.wave_period_millis as int))
            == scaled_sin_spec(p, t0),
{
    let period = p.wave_period_millis as int;
    lemma_time_wraps_to_sum(t0, deltas, period);
    let s = sum_of(deltas);
    lemma_fundamental_div_mod(s, period);
    assert(t0 + s == period * (s / period) + t0);
    vstd::arithmetic::div_mod::lemma_mod_multiples_vanish(s / period, t0, period);
    lemma_small_mod(t0 as nat, period as nat);
}


} // verus!
