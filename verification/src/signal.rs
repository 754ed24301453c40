//! Crossover signal generation with hysteresis.
//!
//! Two smoothed indicator values (a short-window and a long-window trend) are
//! compared on every evaluation tick. The percentage divergence of the short
//! value from the long value is classified against a hysteresis threshold,
//! and a directional signal is emitted only after the classification has held
//! for a configured number of consecutive ticks, at most once per entry into
//! that classification.
//!
//! Indicator values are fixed-point integers; the hysteresis percentage is a
//! fixed-point integer in thousandths of a percent (see [`PCT_SCALE`]). The
//! classification is computed exactly, in integer arithmetic, so the strict
//! comparisons of the specification hold with no rounding slack.

use vstd::prelude::*;

verus! {

/// Denominator of the hysteresis percentage: a stored value of 1000 means 1%.
pub const PCT_SCALE: i64 = 1000;

/// Trading signal.
#[derive(Debug, PartialEq, Eq, Structural, Clone, Copy)]
pub enum Signal {
    Buy,
    Sell,
}

/// The state of the short/long indicator intersection.
#[derive(Debug, PartialEq, Eq, Structural, Clone, Copy)]
pub enum State {
    /// The short indicator is above the long indicator beyond hysteresis.
    Above,
    /// The short indicator is below the long indicator beyond hysteresis.
    Below,
    /// Within hysteresis: no clear signal.
    Between,
}

/// Generator of trading signals with hysteresis.
pub struct CrossoverSignal {
    /// Hysteresis threshold, in thousandths of a percent.
    pub hysteresis_percentage: i64,
    /// Number of consecutive periods the classification must hold before a
    /// signal is emitted.
    pub hysteresis_periods: usize,
    /// Current classification.
    pub state: State,
    /// Number of consecutive ticks spent in the current classification.
    pub time_in_state: usize,
    /// Last emitted signal; prevents re-firing while the classification holds.
    pub last_signal: Option<Signal>,
}

/// Exact classification of the divergence percentage
/// `pct = (short - long) / long * 100` against the threshold
/// `h_pct / PCT_SCALE`: `Above` when `pct` is strictly greater, `Below` when
/// `pct` is strictly less than the negated threshold, `Between` otherwise.
///
/// Both sides are multiplied by `long * PCT_SCALE`, which flips the
/// comparisons when `long` is negative; equality on the boundary lands in
/// `Between` either way.
pub open spec fn classification(h_pct: int, short: int, long: int) -> State
    recommends
        long != 0,
{
    let lhs = (short - long) * 100 * (PCT_SCALE as int);
    let rhs = h_pct * long;
    if long > 0 {
        if lhs > rhs {
            State::Above
        } else if lhs < -rhs {
            State::Below
        } else {
            State::Between
        }
    } else {
        if lhs < rhs {
            State::Above
        } else if lhs > -rhs {
            State::Below
        } else {
            State::Between
        }
    }
}

/// The signal that classification `c` emits once sustained long enough.
pub open spec fn signal_for(c: State) -> Option<Signal> {
    match c {
        State::Above => Some(Signal::Buy),
        State::Below => Some(Signal::Sell),
        State::Between => None,
    }
}

/// One transition of the signal state machine: the successor state and the
/// emitted signal for indicator values `(short, long)`.
pub open spec fn spec_update(pre: CrossoverSignal, short: int, long: int) -> (CrossoverSignal,
    Option<Signal>) {
    if long == 0 {
        (pre, None)
    } else {
        let new_state = classification(pre.hysteresis_percentage as int, short, long);
        let counter: usize = if new_state == pre.state {
            if pre.time_in_state == usize::MAX {
                usize::MAX
            } else {
                (pre.time_in_state + 1) as usize
            }
        } else {
            1
        };
        match new_state {
            State::Above => if counter >= pre.hysteresis_periods && pre.last_signal != Some(
                Signal::Buy,
            ) {
                (
                    CrossoverSignal {
                        state: new_state,
                        time_in_state: counter,
                        last_signal: Some(Signal::Buy),
                        ..pre
                    },
                    Some(Signal::Buy),
                )
            } else {
                (CrossoverSignal { state: new_state, time_in_state: counter, ..pre }, None)
            },
            State::Below => if counter >= pre.hysteresis_periods && pre.last_signal != Some(
                Signal::Sell,
            ) {
                (
                    CrossoverSignal {
                        state: new_state,
                        time_in_state: counter,
                        last_signal: Some(Signal::Sell),
                        ..pre
                    },
                    Some(Signal::Sell),
                )
            } else {
                (CrossoverSignal { state: new_state, time_in_state: counter, ..pre }, None)
            },
            State::Between => (
                CrossoverSignal { state: new_state, time_in_state: 0, ..pre },
                None,
            ),
        }
    }
}

/// Classifies the divergence of `short` from `long` against the threshold
/// `h_pct` (in thousandths of a percent), exactly.
pub fn classify(h_pct: i64, short: i64, long: i64) -> (s: State)
    requires
        long != 0,
    ensures
        s == classification(h_pct as int, short as int, long as int),
{
    let diff: i128 = short as i128 - long as i128;
    let lhs: i128 = diff * 100 * (PCT_SCALE as i128);
    proof {
        lemma_mul_i64_fits_i128(h_pct as int, long as int);
    }
    let rhs: i128 = (h_pct as i128) * (long as i128);
    if long > 0 {
        if lhs > rhs {
            State::Above
        } else if lhs < -rhs {
            State::Below
        } else {
            State::Between
        }
    } else {
        if lhs < rhs {
            State::Above
        } else if lhs > -rhs {
            State::Below
        } else {
            State::Between
        }
    }
}

/// The product of two values in `i64` range stays well inside `i128` range.
proof fn lemma_mul_i64_fits_i128(a: int, b: int)
    by (nonlinear_arith)
    requires
        -0x8000_0000_0000_0000 <= a <= 0x7fff_ffff_ffff_ffff,
        -0x8000_0000_0000_0000 <= b <= 0x7fff_ffff_ffff_ffff,
    ensures
        -0x4000_0000_0000_0000_0000_0000_0000_0000 <= a * b
            <= 0x4000_0000_0000_0000_0000_0000_0000_0000,
{
}

impl CrossoverSignal {
    /// Creates a new signal generator with the given hysteresis parameters:
    /// `hysteresis_percentage` is the divergence threshold, in thousandths of
    /// a percent; `hysteresis_periods` is the number of consecutive periods
    /// the classification must hold before the signal is sent.
    pub fn new(hysteresis_percentage: i64, hysteresis_periods: usize) -> (s: CrossoverSignal)
        ensures
            s == (CrossoverSignal {
                hysteresis_percentage,
                hysteresis_periods,
                state: State::Between,
                time_in_state: 0,
                last_signal: None,
            }),
    {
        CrossoverSignal {
            hysteresis_percentage,
            hysteresis_periods,
            state: State::Between,
            time_in_state: 0,
            last_signal: None,
        }
    }

    /// Updates the internal state with the latest short and long indicator
    /// values and returns the signal generated by the transition, if any.
    ///
    /// A zero `long_ema` would divide by zero, so it leaves the state
    /// untouched and returns nothing. The same-state counter saturates
    /// instead of overflowing.
    pub fn update(&mut self, short_ema: i64, long_ema: i64) -> (signal: Option<Signal>)
        ensures
            (*final(self), signal) == spec_update(
                *old(self),
                short_ema as int,
                long_ema as int,
            ),
            long_ema == 0 ==> signal is None && *final(self) == *old(self),
    {
        if long_ema == 0 {
            // Avoid division by zero.
            return None;
        }
        let new_state = classify(self.hysteresis_percentage, short_ema, long_ema);
        if new_state == self.state {
            // The state has not changed: increase the time in the state.
            if self.time_in_state < usize::MAX {
                self.time_in_state = self.time_in_state + 1;
            }
        } else {
            // The state has changed: reset the time in the state.
            self.state = new_state;
            self.time_in_state = 1;
        }
        // Emit once the time in the current state has reached the hysteresis
        // period count, at most once per entry into the state.
        match self.state {
            State::Above => {
                let repeat = match self.last_signal {
                    Some(Signal::Buy) => true,
                    _ => false,
                };
                if self.time_in_state >= self.hysteresis_periods && !repeat {
                    self.last_signal = Some(Signal::Buy);
                    return Some(Signal::Buy);
                }
            },
            State::Below => {
                let repeat = match self.last_signal {
                    Some(Signal::Sell) => true,
                    _ => false,
                };
                if self.time_in_state >= self.hysteresis_periods && !repeat {
                    self.last_signal = Some(Signal::Sell);
                    return Some(Signal::Sell);
                }
            },
            State::Between => {
                // No signal in the `Between` state.
                self.time_in_state = 0;
            },
        }
        None
    }
}

/// Runs the state machine over a sequence of `(short, long)` inputs and
/// counts the emitted signals.
pub open spec fn spec_run(pre: CrossoverSignal, inputs: Seq<(int, int)>) -> (CrossoverSignal, nat)
    decreases inputs.len(),
{
    if inputs.len() == 0 {
        (pre, 0nat)
    } else {
        let first = spec_update(pre, inputs[0].0, inputs[0].1);
        let rest = spec_run(first.0, inputs.skip(1));
        (
            rest.0,
            rest.1 + if first.1 is Some {
                1nat
            } else {
                0nat
            },
        )
    }
}

/// All inputs of `inputs` map to classification `c` under threshold `h_pct`
/// and have a nonzero long value.
pub open spec fn all_classify_as(pre: CrossoverSignal, inputs: Seq<(int, int)>, c: State) -> bool {
    forall|i: int|
        0 <= i < inputs.len() ==> (#[trigger] inputs[i]).1 != 0 && classification(
            pre.hysteresis_percentage as int,
            inputs[i].0,
            inputs[i].1,
        ) == c
}

/// Once the machine sits in classification `c` with its signal already
/// emitted (or `c` is `Between`, which never emits), further inputs of the
/// same classification emit nothing.
proof fn lemma_latched_emits_nothing(pre: CrossoverSignal, inputs: Seq<(int, int)>, c: State)
    requires
        all_classify_as(pre, inputs, c),
        pre.state == c,
        pre.last_signal == signal_for(c) || c == State::Between,
    ensures
        spec_run(pre, inputs).1 == 0,
    decreases inputs.len(),
{
    if inputs.len() > 0 {
        let first = spec_update(pre, inputs[0].0, inputs[0].1);
        assert(first.1 is None);
        assert(all_classify_as(first.0, inputs.skip(1), c)) by {
            assert(forall|i: int|
                0 <= i < inputs.skip(1).len() ==> inputs.skip(1)[i] == inputs[i + 1]);
        }
        lemma_latched_emits_nothing(first.0, inputs.skip(1), c);
    }
}

/// At most one signal per sustained classification: for any starting state
/// and any run of inputs that all map to the same classification, at most one
/// signal is emitted until the classification changes away (and back).
pub proof fn lemma_at_most_one_signal_per_classification(
    pre: CrossoverSignal,
    inputs: Seq<(int, int)>,
    c: State,
)
    requires
        all_classify_as(pre, inputs, c),
    ensures
        spec_run(pre, inputs).1 <= 1,
    decreases inputs.len(),
{
    if inputs.len() > 0 {
        let first = spec_update(pre, inputs[0].0, inputs[0].1);
        assert(all_classify_as(first.0, inputs.skip(1), c)) by {
            assert(forall|i: int|
                0 <= i < inputs.skip(1).len() ==> inputs.skip(1)[i] == inputs[i + 1]);
        }
        if first.1 is Some {
            assert(first.0.state == c && first.0.last_signal == signal_for(c));
            lemma_latched_emits_nothing(first.0, inputs.skip(1), c);
        } else {
            lemma_at_most_one_signal_per_classification(first.0, inputs.skip(1), c);
        }
    }
}

/// On the exact hysteresis boundary the classification is `Between`: a
/// divergence of exactly `h_pct` is not `Above`, and exactly `-h_pct` is not
/// `Below`. The boundary condition is `pct == h_pct / PCT_SCALE` written
/// multiplied out, where `pct = (short - long) / long * 100`.
pub proof fn lemma_boundary_classifies_between(h_pct: int, short: int, long: int)
    requires
        long != 0,
        h_pct >= 0,
        (short - long) * 100 * (PCT_SCALE as int) == h_pct * long || (short - long) * 100 * (
        PCT_SCALE as int) == -(h_pct * long),
    ensures
        classification(h_pct, short, long) == State::Between,
{
    if long > 0 {
        assert(h_pct * long >= 0) by (nonlinear_arith)
            requires
                h_pct >= 0,
                long > 0,
        ;
    } else {
        assert(h_pct * long <= 0) by (nonlinear_arith)
            requires
                h_pct >= 0,
                long < 0,
        ;
    }
}

} // verus!
