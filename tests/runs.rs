use stockalerts::decision::StockAction;
use stockalerts::event::EventKind;
use stockalerts::processStocksAndAlerts;
use stockalerts::run::{plan_alert, plan_stock, AlertStep, StockStep};
use stockalerts::watchlist::{Alert, Direction, StockPrice};

const UNIT: u64 = 1_000_000;

fn stock(name: &str, price: u64) -> StockPrice {
    StockPrice { name: name.to_string(), lastprice: price }
}

fn alert(name: &str, target: u64, code: i8) -> Alert {
    Alert { name: name.to_string(), targetprice: target, direction: Direction::from_code(code) }
}

fn prices(rows: &[StockPrice]) -> Vec<u64> {
    rows.iter().map(|r| r.lastprice).collect()
}

#[test]
fn run_significant_move_updates_store() {
    let stocks = vec![stock("AAPL", 100 * UNIT)];
    let r = processStocksAndAlerts(&stocks, &vec![Some(105 * UNIT)], &vec![], &vec![], EventKind::Regular);
    assert_eq!(r.stocks, vec![StockStep::Act(StockAction::Significant { rising: true, change: 5 * UNIT, baseline: 100 * UNIT })]);
    assert_eq!(prices(&r.stocks_after), vec![105 * UNIT]);
}

#[test]
fn run_close_event_refreshes_without_notification() {
    let stocks = vec![stock("AAPL", 100 * UNIT)];
    let r = processStocksAndAlerts(&stocks, &vec![Some(103 * UNIT)], &vec![], &vec![], EventKind::Close);
    assert_eq!(r.stocks, vec![StockStep::Act(StockAction::Refresh)]);
    assert_eq!(prices(&r.stocks_after), vec![103 * UNIT]);
}

#[test]
fn run_small_move_changes_nothing() {
    let stocks = vec![stock("AAPL", 100 * UNIT)];
    let r = processStocksAndAlerts(&stocks, &vec![Some(101 * UNIT)], &vec![], &vec![], EventKind::Regular);
    assert_eq!(r.stocks, vec![StockStep::Act(StockAction::Hold)]);
    assert_eq!(prices(&r.stocks_after), vec![100 * UNIT]);
}

#[test]
fn run_alert_above_fires_and_is_deleted() {
    let alerts = vec![alert("AAPL", 145 * UNIT, 1)];
    let r = processStocksAndAlerts(&vec![], &vec![], &alerts, &vec![Some(150 * UNIT)], EventKind::Regular);
    assert_eq!(r.alerts, vec![AlertStep::Triggered]);
    assert!(r.alerts_after.is_empty());
}

#[test]
fn run_alert_below_stays() {
    let alerts = vec![alert("AAPL", 130 * UNIT, 0)];
    let r = processStocksAndAlerts(&vec![], &vec![], &alerts, &vec![Some(135 * UNIT)], EventKind::Regular);
    assert_eq!(r.alerts, vec![AlertStep::Pending]);
    assert_eq!(r.alerts_after.len(), 1);
    assert_eq!(r.alerts_after[0].targetprice, 130 * UNIT);
}

#[test]
fn run_skips_missing_quotes_and_bad_rows() {
    let stocks = vec![stock("AAPL", 100 * UNIT), stock("ZERO", 0)];
    let alerts = vec![alert("AAPL", 145 * UNIT, 1), alert("AAPL", u64::MAX, 0)];
    let r = processStocksAndAlerts(
        &stocks,
        &vec![None, Some(5 * UNIT)],
        &alerts,
        &vec![None, Some(1 * UNIT)],
        EventKind::Close,
    );
    assert_eq!(r.stocks, vec![StockStep::NoQuote, StockStep::InvalidBaseline]);
    assert_eq!(r.alerts, vec![AlertStep::NoQuote, AlertStep::InvalidTarget]);
    assert_eq!(prices(&r.stocks_after), vec![100 * UNIT, 0]);
    assert_eq!(r.alerts_after.len(), 2);
    assert_eq!(plan_stock(&stocks[0], Some(u64::MAX), EventKind::Close), StockStep::NoQuote);
    assert_eq!(plan_alert(&alerts[0], Some(u64::MAX)), AlertStep::NoQuote);
}

#[test]
fn run_duplicate_rows_share_updates_and_deletions() {
    let stocks = vec![stock("AAPL", 140 * UNIT), stock("AAPL", 150 * UNIT), stock("AAPL", 135 * UNIT)];
    let alerts = vec![alert("AAPL", 145 * UNIT, 1), alert("AAPL", 130 * UNIT, 0)];
    let q = Some(146 * UNIT);
    let r = processStocksAndAlerts(&stocks, &vec![q, q, q], &alerts, &vec![q, q], EventKind::Regular);
    assert_eq!(
        r.stocks,
        vec![
            StockStep::Act(StockAction::Significant { rising: true, change: 6 * UNIT, baseline: 140 * UNIT }),
            StockStep::Act(StockAction::Hold),
            StockStep::Act(StockAction::Significant { rising: true, change: 11 * UNIT, baseline: 135 * UNIT }),
        ]
    );
    assert_eq!(prices(&r.stocks_after), vec![146 * UNIT, 146 * UNIT, 146 * UNIT]);
    assert_eq!(r.alerts, vec![AlertStep::Triggered, AlertStep::Pending]);
    assert_eq!(r.alerts_after.len(), 1);
    assert_eq!(r.alerts_after[0].targetprice, 130 * UNIT);
}
