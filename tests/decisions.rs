use stockalerts::decision::{decide_stock, percent_move, DecisionError, StockAction};
use stockalerts::event::{event_kind, event_kind_of_field, event_kind_of_payload, EventKind};
use stockalerts::messages::{alert_message, move_message, note_payload_from, notification_payload, Notification};
use stockalerts::price::{round_to_cents, stored_price_of};

const UNIT: u64 = 1_000_000;

#[test]
fn significant_rise_is_stored_and_notified() {
    let r = decide_stock(100 * UNIT, 105 * UNIT, EventKind::Regular);
    assert_eq!(r, Ok(StockAction::Significant { rising: true, change: 5 * UNIT, baseline: 100 * UNIT }));
    let n = move_message("AAPL", true, 5 * UNIT, 100 * UNIT, 105 * UNIT);
    assert_eq!(n.title, " AAPL +5.00%");
    assert_eq!(n.body, "Price: $105.00");
}

#[test]
fn significant_fall_has_minus_marker() {
    let r = decide_stock(100 * UNIT, 94 * UNIT, EventKind::Regular);
    assert_eq!(r, Ok(StockAction::Significant { rising: false, change: 6 * UNIT, baseline: 100 * UNIT }));
    let n = move_message("AAPL", false, 6 * UNIT, 100 * UNIT, 94 * UNIT);
    assert_eq!(n.title, " AAPL -6.00%");
    assert_eq!(n.body, "Price: $94.00");
}

#[test]
fn close_event_refreshes_baseline() {
    let r = decide_stock(100 * UNIT, 103 * UNIT, event_kind("close"));
    assert_eq!(r, Ok(StockAction::Refresh));
}

#[test]
fn small_move_on_regular_event_holds() {
    let r = decide_stock(100 * UNIT, 101 * UNIT, event_kind(""));
    assert_eq!(r, Ok(StockAction::Hold));
}

#[test]
fn exactly_four_percent_is_not_significant() {
    assert_eq!(decide_stock(100 * UNIT, 104 * UNIT, EventKind::Regular), Ok(StockAction::Hold));
    assert_eq!(decide_stock(100 * UNIT, 96 * UNIT, EventKind::Close), Ok(StockAction::Refresh));
    assert_eq!(
        decide_stock(100 * UNIT, 104 * UNIT + 1, EventKind::Regular),
        Ok(StockAction::Significant { rising: true, change: 4 * UNIT + 1, baseline: 100 * UNIT })
    );
}

#[test]
fn zero_baseline_is_refused() {
    assert_eq!(decide_stock(0, 5 * UNIT, EventKind::Regular), Err(DecisionError::InvalidBaseline));
    assert_eq!(decide_stock(0, 0, EventKind::Close), Err(DecisionError::InvalidBaseline));
}

#[test]
fn percent_is_rounded_half_up() {
    assert_eq!(percent_move(100_000, 3 * UNIT), 333);
    assert_eq!(percent_move(200_000, 3 * UNIT), 667);
    assert_eq!(percent_move(1_000, 8 * UNIT), 1);
    assert_eq!(percent_move(0, 7 * UNIT), 0);
}

#[test]
fn event_kinds() {
    assert_eq!(event_kind("close"), EventKind::Close);
    assert_eq!(event_kind("Close"), EventKind::Regular);
    assert_eq!(event_kind("closed"), EventKind::Regular);
    assert_eq!(event_kind_of_field(None), EventKind::Regular);
    assert_eq!(event_kind_of_field(Some("close")), EventKind::Close);
}

#[test]
fn event_kind_from_json_payload() {
    let close: serde_json::Value = serde_json::from_str("{\"event_type\":\"close\"}").unwrap();
    assert_eq!(event_kind_of_payload(&close), EventKind::Close);
    let empty: serde_json::Value = serde_json::from_str("{\"event_type\":\"\"}").unwrap();
    assert_eq!(event_kind_of_payload(&empty), EventKind::Regular);
    let number: serde_json::Value = serde_json::from_str("{\"event_type\":5}").unwrap();
    assert_eq!(event_kind_of_payload(&number), EventKind::Regular);
    let absent: serde_json::Value = serde_json::from_str("{\"test\":\"data\"}").unwrap();
    assert_eq!(event_kind_of_payload(&absent), EventKind::Regular);
}

#[test]
fn rounding_to_cents_at_half_cent() {
    assert_eq!(round_to_cents(100_005_000), 10001);
    assert_eq!(round_to_cents(100_004_999), 10000);
    assert_eq!(stored_price_of(100_005_000), 100_010_000);
    assert_eq!(stored_price_of(stored_price_of(100_005_000)), 100_010_000);
    assert_eq!(stored_price_of(32_244_000), 32_240_000);
}

#[test]
fn alert_notification_text() {
    let n = alert_message("AAPL", 145 * UNIT, 150 * UNIT);
    assert_eq!(n.title, " AAPL Hit target alert price $145.00");
    assert_eq!(n.body, "Current Price: $150.00");
}

#[test]
fn notification_payload_is_json() {
    let n = move_message("test", true, 1 * UNIT, 10 * UNIT, 32_240_000);
    let p = notification_payload(&n);
    assert_eq!(p, "{\"type\":\"note\",\"title\":\" test +10.00%\",\"body\":\"Price: $32.24\"}");
    let v: serde_json::Value = serde_json::from_str(&p).unwrap();
    assert_eq!(v["title"], " test +10.00%");
}

#[test]
fn notification_payload_escapes_quotes() {
    let n = alert_message("A\"B", 1 * UNIT, 2 * UNIT);
    let p = notification_payload(&n);
    assert_eq!(
        p,
        "{\"type\":\"note\",\"title\":\" A\\\"B Hit target alert price $1.00\",\"body\":\"Current Price: $2.00\"}"
    );
}

#[test]
fn note_payload_from_parts() {
    assert_eq!(note_payload_from("\"t\"", "\"b\""), "{\"type\":\"note\",\"title\":\"t\",\"body\":\"b\"}");
}

#[test]
fn significant_move_keeps_exact_change() {
    let r = decide_stock(3 * UNIT, 3_200_000, EventKind::Regular);
    assert_eq!(r, Ok(StockAction::Significant { rising: true, change: 200_000, baseline: 3 * UNIT }));
    if let Ok(StockAction::Significant { change, baseline, .. }) = r {
        let exact = change as f64 / baseline as f64;
        assert!((exact - 0.2 / 3.0).abs() <= 1e-9);
        let n = move_message("X", true, change, baseline, 3_200_000);
        assert_eq!(n.title, " X +6.67%");
    }
}

#[test]
fn notification_payload_escapes_control_characters() {
    let n = Notification { title: "a\\b\tc\nd\u{1}e\u{8}\u{c}\r/\u{e9}".to_string(), body: String::new() };
    let p = notification_payload(&n);
    assert_eq!(p, "{\"type\":\"note\",\"title\":\"a\\\\b\\tc\\nd\\u0001e\\b\\f\\r/\u{e9}\",\"body\":\"\"}");
    let v: serde_json::Value = serde_json::from_str(&p).unwrap();
    assert_eq!(v["title"], n.title.as_str());
}

#[test]
fn event_kind_from_non_object_payload() {
    let text: serde_json::Value = serde_json::from_str("\"close\"").unwrap();
    assert_eq!(event_kind_of_payload(&text), EventKind::Regular);
    let nested: serde_json::Value = serde_json::from_str("{\"event_type\":{\"event_type\":\"close\"}}").unwrap();
    assert_eq!(event_kind_of_payload(&nested), EventKind::Regular);
}
