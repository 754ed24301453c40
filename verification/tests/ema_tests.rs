use quik_bot::ema::Candle;
use quik_bot::ema::Ema;
use quik_bot::ema::EmaError;

fn flat_candle(close: i64) -> Candle {
    Candle { open: close, high: close, low: close, close, volume: 1_000_000 }
}

fn flat_candles(n: usize, close: i64) -> Vec<Candle> {
    let mut v = Vec::new();
    for _ in 0..n {
        v.push(flat_candle(close));
    }
    v
}

#[test]
fn window_of_eight_succeeds() {
    let candles = flat_candles(8, 250_000_000);
    let r = Ema::calc(&candles, 8);
    // A constant close is a fixed point of the average.
    assert_eq!(r, Ok(250_000_000));
}

#[test]
fn seven_candles_for_window_of_eight_fail() {
    let candles = flat_candles(7, 250_000_000);
    assert_eq!(Ema::calc(&candles, 8), Err(EmaError::NoData));
}

#[test]
fn too_many_candles_fail_too() {
    let candles = flat_candles(9, 250_000_000);
    assert_eq!(Ema::calc(&candles, 8), Err(EmaError::NoData));
}

#[test]
fn exact_two_candle_average() {
    // Seeded with the first close; then (2 * 20 + (2 - 1) * 10) / (2 + 1).
    let candles = vec![flat_candle(10), flat_candle(20)];
    assert_eq!(Ema::calc(&candles, 2), Ok(16));
}

#[test]
fn exact_three_candle_average() {
    // Period 3: seed 10; then (2 * 22 + 2 * 10) / 4 = 16;
    // then (2 * 40 + 2 * 16) / 4 = 28.
    let candles = vec![flat_candle(10), flat_candle(22), flat_candle(40)];
    assert_eq!(Ema::calc(&candles, 3), Ok(28));
}

#[test]
fn only_the_close_prices_enter_the_average() {
    let candles = vec![
        Candle { open: 1, high: 999, low: 1, close: 10, volume: 7 },
        Candle { open: 500, high: 800, low: 2, close: 20, volume: 3 },
    ];
    assert_eq!(Ema::calc(&candles, 2), Ok(16));
}

#[test]
fn invalid_candle_fails() {
    let mut candles = flat_candles(3, 100);
    candles[1].volume = 0;
    assert_eq!(Ema::calc(&candles, 3), Err(EmaError::NoData));
}

#[test]
fn nonpositive_price_is_invalid() {
    let good = flat_candle(100);
    assert!(good.is_valid());
    let mut bad = flat_candle(100);
    bad.close = 0;
    assert!(!bad.is_valid());
    let mut negative = flat_candle(100);
    negative.low = -1;
    assert!(!negative.is_valid());
}

#[test]
fn negative_request_fails() {
    let candles = flat_candles(2, 100);
    assert_eq!(Ema::calc(&candles, -2), Err(EmaError::NoData));
}

#[test]
fn no_data_message() {
    assert_eq!(
        EmaError::NoData.message(),
        "there is not enough data to calculate the EMA"
    );
}
