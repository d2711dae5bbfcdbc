//! One invocation: the step taken for each stock and each alert, given the
//! quotes fetched for them, and the rows the store holds once every write
//! of the run has succeeded.
use vstd::prelude::*;
use crate::decision::{decide_stock, stock_action, StockAction};
use crate::event::EventKind;
use crate::price::{valid_price, MAX_PRICE};
use crate::watchlist::{
    alert_triggered, apply_price_update, delete_alerts, remaining_alerts, triggers, updated_rows,
    Alert, StockPrice,
};

verus! {

/// The step taken for a tracked stock.
#[derive(Clone, Copy, Debug, PartialEq, Eq, Structural)]
pub enum StockStep {
    /// No usable quote: the stock is skipped this time.
    NoQuote,
    /// The baseline is zero or out of range: the stock is skipped.
    InvalidBaseline,
    /// The decided action.
    Act(StockAction),
}

/// The step taken for a price alert.
#[derive(Clone, Copy, Debug, PartialEq, Eq, Structural)]
pub enum AlertStep {
    /// No usable quote: the alert is skipped this time.
    NoQuote,
    /// The target is out of range: the alert is skipped.
    InvalidTarget,
    /// The alert has not fired and stays.
    Pending,
    /// The alert fired: notify, then delete it.
    Triggered,
}

/// A quote the library can use.
pub open spec fn usable(quote: Option<u64>) -> bool {
    quote matches Some(q) && valid_price(q as int)
}

/// The step for a stock with baseline `previous` and the fetched quote.
pub open spec fn stock_step(previous: int, quote: Option<u64>, event: EventKind) -> StockStep {
    if !usable(quote) {
        StockStep::NoQuote
    } else if previous == 0 || !valid_price(previous) {
        StockStep::InvalidBaseline
    } else {
        StockStep::Act(stock_action(previous, quote->Some_0 as int, event))
    }
}

/// The step stores the quote as the new baseline.
pub open spec fn stores(step: StockStep) -> bool {
    match step {
        StockStep::Act(StockAction::Significant { .. }) => true,
        StockStep::Act(StockAction::Refresh) => true,
        _ => false,
    }
}

/// The step for an alert and the fetched quote.
pub open spec fn alert_step(alert: Alert, quote: Option<u64>) -> AlertStep {
    if !usable(quote) {
        AlertStep::NoQuote
    } else if !valid_price(alert.targetprice as int) {
        AlertStep::InvalidTarget
    } else if triggers(alert.direction, alert.targetprice as int, quote->Some_0 as int) {
        AlertStep::Triggered
    } else {
        AlertStep::Pending
    }
}

/// The stock rows once the stores of the first `k` stocks have been applied
/// to `rows`, in order.
pub open spec fn stocks_after(
    rows: Seq<StockPrice>,
    stocks: Seq<StockPrice>,
    quotes: Seq<Option<u64>>,
    event: EventKind,
    k: nat,
) -> Seq<StockPrice>
    decreases k,
{
    if k == 0 {
        rows
    } else {
        let before = stocks_after(rows, stocks, quotes, event, (k - 1) as nat);
        let s = stocks[k - 1];
        if stores(stock_step(s.lastprice as int, quotes[k - 1], event)) {
            updated_rows(before, s.name@, quotes[k - 1]->Some_0 as int)
        } else {
            before
        }
    }
}

/// The alert rows once the deletions of the first `k` alerts have been
/// applied to `rows`, in order.
pub open spec fn alerts_after(
    rows: Seq<Alert>,
    alerts: Seq<Alert>,
    quotes: Seq<Option<u64>>,
    k: nat,
) -> Seq<Alert>
    decreases k,
{
    if k == 0 {
        rows
    } else {
        let before = alerts_after(rows, alerts, quotes, (k - 1) as nat);
        let a = alerts[k - 1];
        if alert_step(a, quotes[k - 1]) == AlertStep::Triggered {
            remaining_alerts(before, a.name@, a.targetprice as int)
        } else {
            before
        }
    }
}

/// The step for one stock, given the quote fetched for it.
pub fn plan_stock(stock: &StockPrice, quote: Option<u64>, event: EventKind) -> (r: StockStep)
    ensures
        r == stock_step(stock.lastprice as int, quote, event),
{
    match quote {
        Some(q) if q <= MAX_PRICE => {
            if stock.lastprice > MAX_PRICE {
                StockStep::InvalidBaseline
            } else {
                match decide_stock(stock.lastprice, q, event) {
                    Ok(action) => StockStep::Act(action),
                    Err(_) => StockStep::InvalidBaseline,
                }
            }
        },
        _ => StockStep::NoQuote,
    }
}

/// The step for one alert, given the quote fetched for it.
pub fn plan_alert(alert: &Alert, quote: Option<u64>) -> (r: AlertStep)
    ensures
        r == alert_step(*alert, quote),
{
    match quote {
        Some(q) if q <= MAX_PRICE => {
            if alert.targetprice > MAX_PRICE {
                AlertStep::InvalidTarget
            } else if alert_triggered(alert, q) {
                AlertStep::Triggered
            } else {
                AlertStep::Pending
            }
        },
        _ => AlertStep::NoQuote,
    }
}

fn copy_stocks(v: &Vec<StockPrice>) -> (r: Vec<StockPrice>)
    ensures
        r@ == v@,
{
    let mut out: Vec<StockPrice> = Vec::new();
    let mut i: usize = 0;
    while i < v.len()
        invariant
            i <= v@.len(),
            out@ == v@.subrange(0, i as int),
        decreases v@.len() - i,
    {
        out.push(v[i].duplicate());
        i = i + 1;
        assert(out@ =~= v@.subrange(0, i as int));
    }
    assert(v@.subrange(0, v@.len() as int) =~= v@);
    out
}

fn copy_alerts(v: &Vec<Alert>) -> (r: Vec<Alert>)
    ensures
        r@ == v@,
{
    let mut out: Vec<Alert> = Vec::new();
    let mut i: usize = 0;
    while i < v.len()
        invariant
            i <= v@.len(),
            out@ == v@.subrange(0, i as int),
        decreases v@.len() - i,
    {
        out.push(v[i].duplicate());
        i = i + 1;
        assert(out@ =~= v@.subrange(0, i as int));
    }
    assert(v@.subrange(0, v@.len() as int) =~= v@);
    out
}

/// What one invocation does: the step of each stock and of each alert, and
/// the rows that the store holds afterwards if every write succeeds.
pub struct RunReport {
    pub stocks: Vec<StockStep>,
    pub alerts: Vec<AlertStep>,
    pub stocks_after: Vec<StockPrice>,
    pub alerts_after: Vec<Alert>,
}

/// Processes the tracked stocks and the alerts of one invocation, in order,
/// with the quote fetched for each (`None` where none could be had).
#[allow(non_snake_case)]
pub fn processStocksAndAlerts(
    stocks: &Vec<StockPrice>,
    stock_quotes: &Vec<Option<u64>>,
    alerts: &Vec<Alert>,
    alert_quotes: &Vec<Option<u64>>,
    event: EventKind,
) -> (r: RunReport)
    requires
        stock_quotes@.len() == stocks@.len(),
        alert_quotes@.len() == alerts@.len(),
    ensures
        r.stocks@.len() == stocks@.len(),
        forall|i: int|
            0 <= i < stocks@.len() ==> r.stocks@[i] == stock_step(
                stocks@[i].lastprice as int,
                stock_quotes@[i],
                event,
            ),
        r.alerts@.len() == alerts@.len(),
        forall|i: int| 0 <= i < alerts@.len() ==> r.alerts@[i] == alert_step(alerts@[i], alert_quotes@[i]),
        r.stocks_after@ == stocks_after(
            stocks@,
            stocks@,
            stock_quotes@,
            event,
            stocks@.len() as nat,
        ),
        r.alerts_after@ == alerts_after(alerts@, alerts@, alert_quotes@, alerts@.len() as nat),
{
    let mut stock_steps: Vec<StockStep> = Vec::new();
    let mut table = copy_stocks(stocks);
    let mut i: usize = 0;
    while i < stocks.len()
        invariant
            i <= stocks@.len() == stock_quotes@.len(),
            stock_steps@.len() == i,
            forall|j: int|
                0 <= j < i ==> stock_steps@[j] == stock_step(
                    stocks@[j].lastprice as int,
                    stock_quotes@[j],
                    event,
                ),
            table@ == stocks_after(stocks@, stocks@, stock_quotes@, event, i as nat),
        decreases stocks@.len() - i,
    {
        let step = plan_stock(&stocks[i], stock_quotes[i], event);
        match step {
            StockStep::Act(StockAction::Significant { .. }) | StockStep::Act(
                StockAction::Refresh,
            ) => {
                match stock_quotes[i] {
                    Some(q) => apply_price_update(&mut table, &stocks[i].name, q),
                    None => {},
                }
            },
            _ => {},
        }
        stock_steps.push(step);
        i = i + 1;
    }
    let mut alert_steps: Vec<AlertStep> = Vec::new();
    let mut left = copy_alerts(alerts);
    let mut k: usize = 0;
    while k < alerts.len()
        invariant
            k <= alerts@.len() == alert_quotes@.len(),
            alert_steps@.len() == k,
            forall|j: int| 0 <= j < k ==> alert_steps@[j] == alert_step(alerts@[j], alert_quotes@[j]),
            left@ == alerts_after(alerts@, alerts@, alert_quotes@, k as nat),
        decreases alerts@.len() - k,
    {
        let step = plan_alert(&alerts[k], alert_quotes[k]);
        if step == AlertStep::Triggered {
            left = delete_alerts(&left, &alerts[k].name, alerts[k].targetprice);
        }
        alert_steps.push(step);
        k = k + 1;
    }
    RunReport { stocks: stock_steps, alerts: alert_steps, stocks_after: table, alerts_after: left }
}

} // verus!
