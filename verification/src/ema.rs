//! Indicator computation over a window of candles.
//!
//! A candle is the OHLCV summary of the trades inside one fixed-width time
//! bucket, with prices and volume as fixed-point integers (millionths of a
//! unit). The indicator is a streaming exponential moving average over the
//! close prices of a window of candles, seeded with a period equal to the
//! window size and consumed strictly oldest-first.
//!
//! The computation refuses a window whose length differs from the requested
//! candle count: an indicator over a silently shorter window is statistically
//! different and must be rejected, not approximated.

use vstd::arithmetic::div_mod::lemma_div_is_ordered;
use vstd::arithmetic::div_mod::lemma_div_multiples_vanish;
use vstd::prelude::*;

verus! {

/// Denominator of fixed-point prices and volumes: a stored value of
/// 1_000_000 means one currency unit.
pub const PRICE_SCALE: i64 = 1_000_000;

/// OHLCV summary of one time bucket, in fixed-point units.
#[derive(Debug, Clone, Copy)]
pub struct Candle {
    pub open: i64,
    pub high: i64,
    pub low: i64,
    pub close: i64,
    pub volume: i64,
}

impl Candle {
    /// A candle is usable for indicator computation when every field is
    /// strictly positive.
    pub open spec fn spec_valid(self) -> bool {
        self.open > 0 && self.high > 0 && self.low > 0 && self.close > 0 && self.volume > 0
    }

    /// Checks that every field of the candle is strictly positive.
    pub fn is_valid(&self) -> (r: bool)
        ensures
            r == self.spec_valid(),
    {
        self.open > 0 && self.high > 0 && self.low > 0 && self.close > 0 && self.volume > 0
    }
}

/// Failure of an indicator computation.
#[derive(Debug, PartialEq, Eq, Structural, Clone, Copy)]
pub enum EmaError {
    /// There is not enough data to calculate the indicator: the window is
    /// shorter than requested, or a candle in it is unusable.
    NoData,
}

impl EmaError {
    /// A human-readable description of the failure.
    pub fn message(&self) -> (s: String)
        ensures
            s@ == "there is not enough data to calculate the EMA"@,
    {
        String::from_str("there is not enough data to calculate the EMA")
    }
}

/// One step of the exponential moving average with smoothing factor
/// `2 / (period + 1)`, in exact integer arithmetic with flooring division:
/// `next = (2 * x + (period - 1) * prev) / (period + 1)`.
pub open spec fn ema_step(prev: int, x: int, period: int) -> int {
    (2 * x + (period - 1) * prev) / (period + 1)
}

/// The exponential moving average of `closes` (oldest first) with the given
/// period, seeded with the first value.
pub open spec fn ema_of(closes: Seq<int>, period: int) -> int
    decreases closes.len(),
{
    if closes.len() == 0 {
        0
    } else if closes.len() == 1 {
        closes[0]
    } else {
        ema_step(ema_of(closes.drop_last(), period), closes.last(), period)
    }
}

/// The close prices of a candle window.
pub open spec fn closes_of(candles: Seq<Candle>) -> Seq<int> {
    candles.map_values(|c: Candle| c.close as int)
}

/// Every candle of the window is valid.
pub open spec fn all_valid(candles: Seq<Candle>) -> bool {
    forall|i: int| 0 <= i < candles.len() ==> (#[trigger] candles[i]).spec_valid()
}

/// The result of an indicator computation over `candles` when
/// `number_of_candles` buckets were requested.
pub open spec fn spec_calc(candles: Seq<Candle>, number_of_candles: int) -> Result<int, EmaError> {
    if candles.len() != number_of_candles {
        Err(EmaError::NoData)
    } else if !all_valid(candles) {
        Err(EmaError::NoData)
    } else {
        Ok(ema_of(closes_of(candles), candles.len() as int))
    }
}

/// A window of exactly the requested number of candles (at least one, since
/// a zero-candle indicator is undefined and refused), all of them valid,
/// always computes: the result is `Ok`, never a data-insufficiency error.
pub proof fn lemma_full_valid_window_succeeds(candles: Seq<Candle>, number_of_candles: int)
    requires
        number_of_candles >= 1,
        candles.len() == number_of_candles,
        all_valid(candles),
    ensures
        spec_calc(candles, number_of_candles) is Ok,
{
}

/// An exponential-average step over values in `[0, i64::MAX]` with a period
/// of at least one stays in `[0, i64::MAX]`.
proof fn lemma_ema_step_bounds(prev: int, x: int, period: int)
    requires
        0 <= prev <= 0x7fff_ffff_ffff_ffff,
        0 <= x <= 0x7fff_ffff_ffff_ffff,
        period >= 1,
    ensures
        0 <= ema_step(prev, x, period) <= 0x7fff_ffff_ffff_ffff,
{
    let bound: int = 0x7fff_ffff_ffff_ffff;
    let num = 2 * x + (period - 1) * prev;
    assert(0 <= num && num <= (period + 1) * bound) by (nonlinear_arith)
        requires
            num == 2 * x + (period - 1) * prev,
            0 <= prev <= bound,
            0 <= x <= bound,
            period >= 1,
    ;
    assert(num / (period + 1) >= 0) by (nonlinear_arith)
        requires
            num >= 0,
            period >= 1,
    ;
    lemma_div_is_ordered(num, (period + 1) * bound, period + 1);
    lemma_div_multiples_vanish(bound, period + 1);
}

/// Computes exponential moving averages; see [`Ema::calc`].
pub struct Ema {}

impl Ema {
    /// Computes the exponential moving average over a window of candles,
    /// oldest first, seeded with a period equal to the window size.
    ///
    /// Returns `EmaError::NoData` when the window length differs from
    /// `number_of_candles` or when any candle of the window is invalid;
    /// otherwise the exact fixed-point average given by [`ema_of`].
    pub fn calc(candles: &Vec<Candle>, number_of_candles: i32) -> (r: Result<i64, EmaError>)
        requires
            number_of_candles != 0 || candles@.len() != 0,
        ensures
            r is Err <==> spec_calc(candles@, number_of_candles as int) is Err,
            r is Err ==> r == Err::<i64, EmaError>(EmaError::NoData),
            r matches Ok(v) ==> (spec_calc(candles@, number_of_candles as int) matches Ok(w)
                && v as int == w),
    {
        if number_of_candles < 0 {
            return Err(EmaError::NoData);
        }
        let n = candles.len();
        if n != number_of_candles as usize {
            return Err(EmaError::NoData);
        }
        let mut ema: i64 = 0;
        let mut i: usize = 0;
        while i < n
            invariant
                0 <= i <= n,
                n >= 1,
                n == candles@.len(),
                forall|j: int| 0 <= j < i ==> (#[trigger] candles@[j]).spec_valid(),
                0 <= ema,
                ema as int == ema_of(closes_of(candles@).take(i as int), n as int),
            decreases n - i,
        {
            let c = &candles[i];
            if !c.is_valid() {
                return Err(EmaError::NoData);
            }
            let ghost closes = closes_of(candles@);
            if i == 0 {
                ema = c.close;
                proof {
                    assert(closes.take(1).len() == 1);
                    assert(closes.take(1)[0] == c.close as int);
                }
            } else {
                let prev: u128 = ema as u128;
                let x: u128 = c.close as u128;
                let p: u128 = n as u128;
                proof {
                    assert((p - 1) * prev < 0x8000_0000_0000_0000_0000_0000_0000_0000int)
                        by (nonlinear_arith)
                        requires
                            0 <= p - 1 < 0x1_0000_0000_0000_0000int,
                            0 <= prev < 0x8000_0000_0000_0000int,
                    ;
                }
                let num: u128 = 2 * x + (p - 1) * prev;
                let q: u128 = num / (p + 1);
                proof {
                    lemma_ema_step_bounds(prev as int, x as int, p as int);
                    assert(q as int == ema_step(ema as int, c.close as int, n as int));
                }
                ema = q as i64;
                proof {
                    assert(closes.take(i + 1).drop_last() =~= closes.take(i as int));
                    assert(closes.take(i + 1).last() == closes[i as int]);
                    assert(closes.take(i + 1).len() == i + 1 >= 2);
                }
            }
            i = i + 1;
        }
        proof {
            assert(closes_of(candles@).take(n as int) =~= closes_of(candles@));
        }
        Ok(ema)
    }
}

} // verus!
