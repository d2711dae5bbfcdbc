//! The decision on one tracked stock: given its stored baseline and a fresh
//! quote, whether to refresh the baseline and whether to notify.
use vstd::prelude::*;
use crate::event::EventKind;
use crate::price::valid_price;

verus! {

/// What to do with a tracked stock.
#[derive(Clone, Copy, Debug, PartialEq, Eq, Structural)]
pub enum StockAction {
    /// The price moved by more than four percent: store it and notify.
    /// The relative change is exactly `change / baseline`, where `change` is
    /// the distance between the quote and the baseline.
    Significant { rising: bool, change: u64, baseline: u64 },
    /// A close event with a smaller move: store the price, no notification.
    Refresh,
    /// Nothing to do.
    Hold,
}

/// Why a stock could not be decided.
#[derive(Clone, Copy, Debug, PartialEq, Eq, Structural)]
pub enum DecisionError {
    /// The stored baseline is zero, so no relative change exists.
    InvalidBaseline,
}

/// The distance between two prices.
pub open spec fn abs_diff(a: int, b: int) -> int {
    if a >= b {
        a - b
    } else {
        b - a
    }
}

/// The move from `previous` to `current` exceeds four percent of `previous`:
/// `|current - previous| / previous > 0.04`.
pub open spec fn is_significant(previous: int, current: int) -> bool {
    25 * abs_diff(current, previous) > previous
}

/// A relative change `change / baseline`, written as a percentage in
/// hundredths of a percent and rounded half up (for display only).
pub open spec fn percent_hundredths(change: int, baseline: int) -> int {
    (20_000 * change + baseline) / (2 * baseline)
}

/// The action on a stock with a non-zero baseline.
pub open spec fn stock_action(previous: int, current: int, event: EventKind) -> StockAction {
    if is_significant(previous, current) {
        StockAction::Significant {
            rising: current >= previous,
            change: abs_diff(current, previous) as u64,
            baseline: previous as u64,
        }
    } else if event == EventKind::Close {
        StockAction::Refresh
    } else {
        StockAction::Hold
    }
}

/// A significant move carries the relative change exactly: `change / baseline`
/// is `|current - previous| / previous`, and the move is significant exactly
/// when that ratio exceeds four percent.
pub proof fn lemma_relative_change_exact(previous: int, current: int, event: EventKind)
    requires
        previous > 0,
        valid_price(previous),
        valid_price(current),
    ensures
        is_significant(previous, current) <==> 100 * abs_diff(current, previous) > 4 * previous,
        is_significant(previous, current) ==> (stock_action(previous, current, event) matches
            StockAction::Significant { rising, change, baseline } && change == abs_diff(
            current,
            previous,
        ) && baseline == previous && rising == (current >= previous)),
{
}

/// The percentage shown for a change is `100 * change / baseline` to within
/// half a hundredth of a percent.
pub proof fn lemma_percent_hundredths_rounding(change: int, baseline: int)
    requires
        baseline > 0,
        change >= 0,
    ensures
        2 * baseline * percent_hundredths(change, baseline) <= 20_000 * change + baseline,
        20_000 * change + baseline < 2 * baseline * (percent_hundredths(change, baseline) + 1),
{
    let n = 20_000 * change + baseline;
    let m = 2 * baseline;
    let q = n / m;
    assert(m * q <= n < m * (q + 1)) by (nonlinear_arith)
        requires
            m > 0,
            q == n / m,
    ;
}

/// The relative change `change / baseline` in hundredths of a percent,
/// rounded half up.
pub fn percent_move(change: u64, baseline: u64) -> (r: u128)
    requires
        0 < baseline,
        valid_price(baseline as int),
        valid_price(change as int),
    ensures
        r == percent_hundredths(change as int, baseline as int),
{
    let num: u128 = 20_000u128 * (change as u128) + (baseline as u128);
    let den: u128 = 2u128 * (baseline as u128);
    let q: u128 = num / den;
    proof {
        assert(q <= num) by (nonlinear_arith)
            requires
                den >= 1,
                q == num / den,
        ;
    }
    q
}

/// Decides what to do with a stock whose stored baseline is `previous` and
/// whose fresh quote is `current`. A zero baseline is refused.
pub fn decide_stock(previous: u64, current: u64, event: EventKind) -> (r: Result<
    StockAction,
    DecisionError,
>)
    requires
        valid_price(previous as int),
        valid_price(current as int),
    ensures
        previous == 0 ==> r == Err::<StockAction, DecisionError>(DecisionError::InvalidBaseline),
        previous > 0 ==> r == Ok::<StockAction, DecisionError>(
            stock_action(previous as int, current as int, event),
        ),
{
    if previous == 0 {
        return Err(DecisionError::InvalidBaseline);
    }
    let diff: u64 = if current >= previous {
        current - previous
    } else {
        previous - current
    };
    if (diff as u128) * 25 > previous as u128 {
        Ok(StockAction::Significant { rising: current >= previous, change: diff, baseline: previous })
    } else if event == EventKind::Close {
        Ok(StockAction::Refresh)
    } else {
        Ok(StockAction::Hold)
    }
}

} // verus!
