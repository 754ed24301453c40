use quik_bot::signal::classify;
use quik_bot::signal::CrossoverSignal;
use quik_bot::signal::Signal;
use quik_bot::signal::State;

// Hysteresis of 1.0% (1000 thousandths of a percent), three periods.
fn signal_1pct_3(periods: usize) -> CrossoverSignal {
    CrossoverSignal::new(1000, periods)
}

#[test]
fn three_ticks_above_emit_buy_then_no_refire() {
    let mut cs = signal_1pct_3(3);
    // pct = 2% > 1% on every tick, starting from Between.
    assert_eq!(cs.update(102_000_000, 100_000_000), None);
    assert_eq!(cs.update(102_000_000, 100_000_000), None);
    assert_eq!(cs.update(102_000_000, 100_000_000), Some(Signal::Buy));
    // A fourth tick above the threshold does not re-fire.
    assert_eq!(cs.update(102_000_000, 100_000_000), None);
}

#[test]
fn three_ticks_below_emit_sell() {
    let mut cs = signal_1pct_3(3);
    assert_eq!(cs.update(98_000_000, 100_000_000), None);
    assert_eq!(cs.update(98_000_000, 100_000_000), None);
    assert_eq!(cs.update(98_000_000, 100_000_000), Some(Signal::Sell));
    assert_eq!(cs.update(98_000_000, 100_000_000), None);
}

#[test]
fn zero_long_is_a_no_op() {
    let mut cs = signal_1pct_3(1);
    assert_eq!(cs.update(0, 0), None);
    assert_eq!(cs.update(1, 0), None);
    assert_eq!(cs.update(-5_000_000, 0), None);
    assert_eq!(cs.update(i64::MAX, 0), None);
    // The state was never touched: a first real tick still counts from zero.
    assert_eq!(cs.time_in_state, 0);
    assert_eq!(cs.state, State::Between);
}

#[test]
fn boundary_pct_is_between_not_above() {
    // pct exactly equal to h_pct: (101_000 - 100_000) / 100_000 * 100 = 1.0%.
    assert_eq!(classify(1000, 101_000, 100_000), State::Between);
    // Just above the boundary.
    assert_eq!(classify(1000, 101_001, 100_000), State::Above);
}

#[test]
fn boundary_negative_pct_is_between_not_below() {
    // pct exactly equal to -h_pct.
    assert_eq!(classify(1000, 99_000, 100_000), State::Between);
    // Just below the boundary.
    assert_eq!(classify(1000, 98_999, 100_000), State::Below);
}

#[test]
fn counter_resets_when_classification_changes() {
    let mut cs = signal_1pct_3(3);
    assert_eq!(cs.update(102_000_000, 100_000_000), None);
    assert_eq!(cs.update(102_000_000, 100_000_000), None);
    // Back inside hysteresis: the counter resets.
    assert_eq!(cs.update(100_000_000, 100_000_000), None);
    // Three fresh ticks above are needed again.
    assert_eq!(cs.update(102_000_000, 100_000_000), None);
    assert_eq!(cs.update(102_000_000, 100_000_000), None);
    assert_eq!(cs.update(102_000_000, 100_000_000), Some(Signal::Buy));
}

#[test]
fn reentering_same_extreme_does_not_refire() {
    let mut cs = signal_1pct_3(1);
    assert_eq!(cs.update(102_000_000, 100_000_000), Some(Signal::Buy));
    // Through Between and back above: the last emitted signal persists, so
    // the same direction does not fire again.
    assert_eq!(cs.update(100_000_000, 100_000_000), None);
    assert_eq!(cs.update(102_000_000, 100_000_000), None);
    // The opposite extreme does fire, and clears the way for a new buy.
    assert_eq!(cs.update(98_000_000, 100_000_000), Some(Signal::Sell));
    assert_eq!(cs.update(102_000_000, 100_000_000), Some(Signal::Buy));
}

#[test]
fn at_most_one_signal_while_classification_holds() {
    let mut cs = signal_1pct_3(2);
    let mut emitted = 0;
    for _ in 0..50 {
        if cs.update(103_000_000, 100_000_000).is_some() {
            emitted += 1;
        }
    }
    assert_eq!(emitted, 1);
}

#[test]
fn negative_long_value_classifies_exactly() {
    // With a negative long value the comparison flips sign:
    // short = -98_000, long = -100_000 gives pct = -2.0%.
    assert_eq!(classify(1000, -98_000, -100_000), State::Below);
    assert_eq!(classify(1000, -102_000, -100_000), State::Above);
    assert_eq!(classify(1000, -101_000, -100_000), State::Between);
}
