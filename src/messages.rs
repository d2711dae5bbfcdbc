//! Push notifications: their title and body text, and the JSON payload that
//! carries them.
use vstd::prelude::*;
use crate::decision::{percent_hundredths, percent_move};
use crate::price::{cents_of, round_to_cents, valid_price};
use crate::text::{digit_char, fixed2, push_fixed2};

verus! {

/// A push notification.
#[derive(Clone, Debug)]
pub struct Notification {
    pub title: String,
    pub body: String,
}

/// Title of a significant-move notification: the ticker, then the sign of the
/// move and the relative change `change / baseline` in percent, shown with
/// two decimals.
pub open spec fn move_title(name: Seq<char>, rising: bool, change: int, baseline: int) -> Seq<
    char,
> {
    " "@ + name + (if rising {
        " +"@
    } else {
        " -"@
    }) + fixed2(percent_hundredths(change, baseline) as nat) + "%"@
}

/// Body of a significant-move notification: the price with two decimals.
pub open spec fn move_body(price: int) -> Seq<char> {
    "Price: $"@ + fixed2(cents_of(price) as nat)
}

/// Title of an alert notification: the ticker and the target with two decimals.
pub open spec fn alert_title(name: Seq<char>, target: int) -> Seq<char> {
    " "@ + name + " Hit target alert price $"@ + fixed2(cents_of(target) as nat)
}

/// Body of an alert notification: the current price with two decimals.
pub open spec fn alert_body(quote: int) -> Seq<char> {
    "Current Price: $"@ + fixed2(cents_of(quote) as nat)
}

/// The notification for a significant move of `name` to `price`, by the
/// relative change `change / baseline`.
pub fn move_message(name: &str, rising: bool, change: u64, baseline: u64, price: u64) -> (r:
    Notification)
    requires
        0 < baseline,
        valid_price(baseline as int),
        valid_price(change as int),
        valid_price(price as int),
    ensures
        r.title@ == move_title(name@, rising, change as int, baseline as int),
        r.body@ == move_body(price as int),
{
    let mut title = String::new();
    title.append(" ");
    title.append(name);
    if rising {
        title.append(" +");
    } else {
        title.append(" -");
    }
    push_fixed2(&mut title, percent_move(change, baseline));
    title.append("%");
    let mut body = String::new();
    body.append("Price: $");
    push_fixed2(&mut body, round_to_cents(price) as u128);
    assert(title@ =~= move_title(name@, rising, change as int, baseline as int));
    assert(body@ =~= move_body(price as int));
    Notification { title, body }
}

/// The notification for an alert on `name` with target `target` that fired
/// at `quote`.
pub fn alert_message(name: &str, target: u64, quote: u64) -> (r: Notification)
    requires
        valid_price(target as int),
        valid_price(quote as int),
    ensures
        r.title@ == alert_title(name@, target as int),
        r.body@ == alert_body(quote as int),
{
    let mut title = String::new();
    title.append(" ");
    title.append(name);
    title.append(" Hit target alert price $");
    push_fixed2(&mut title, round_to_cents(target) as u128);
    let mut body = String::new();
    body.append("Current Price: $");
    push_fixed2(&mut body, round_to_cents(quote) as u128);
    assert(title@ =~= alert_title(name@, target as int));
    assert(body@ =~= alert_body(quote as int));
    Notification { title, body }
}

/// A lowercase hexadecimal digit.
pub open spec fn hex_digit(d: int) -> char {
    if d < 10 {
        digit_char(d)
    } else if d == 10 {
        'a'
    } else if d == 11 {
        'b'
    } else if d == 12 {
        'c'
    } else if d == 13 {
        'd'
    } else if d == 14 {
        'e'
    } else {
        'f'
    }
}

/// How one character is written inside a JSON string: quote and backslash
/// behind a backslash, the short escapes for backspace, tab, newline, form
/// feed and carriage return, `\u00` and two hex digits for the other control
/// characters, and every other character as it is.
pub open spec fn json_escaped(c: char) -> Seq<char> {
    if c == '"' {
        seq!['\\', '"']
    } else if c == '\\' {
        seq!['\\', '\\']
    } else if c == '\u{8}' {
        seq!['\\', 'b']
    } else if c == '\t' {
        seq!['\\', 't']
    } else if c == '\n' {
        seq!['\\', 'n']
    } else if c == '\u{c}' {
        seq!['\\', 'f']
    } else if c == '\r' {
        seq!['\\', 'r']
    } else if (c as u32) < 0x20 {
        seq!['\\', 'u', '0', '0', hex_digit(((c as u32) / 16) as int), hex_digit(((c as u32) % 16) as int)]
    } else {
        seq![c]
    }
}

/// The characters of `s`, each escaped for a JSON string.
pub open spec fn json_escape(s: Seq<char>) -> Seq<char>
    decreases s.len(),
{
    if s.len() == 0 {
        Seq::empty()
    } else {
        json_escape(s.drop_last()) + json_escaped(s.last())
    }
}

/// The JSON string literal of `s`: its escaped characters between quotes.
pub open spec fn json_quoted(s: Seq<char>) -> Seq<char> {
    seq!['"'] + json_escape(s) + seq!['"']
}

/// Relies on `serde_json::to_string` applied to a `str`: the string between
/// quotes with `"`, `\` and the control characters escaped as serde_json's
/// escape table gives them. Serialising a `str` into the in-memory buffer
/// that `to_string` uses cannot fail.
#[verifier::external_body]
fn quote_json(s: &str) -> (r: String)
    ensures
        r@ == json_quoted(s@),
{
    serde_json::to_string(s).unwrap_or_default()
}

/// A note push as JSON, from the title and body already written as JSON
/// string literals.
pub open spec fn note_payload(title_json: Seq<char>, body_json: Seq<char>) -> Seq<char> {
    "{\"type\":\"note\",\"title\":"@ + title_json + ",\"body\":"@ + body_json + "}"@
}

/// Builds a note push from the JSON string literals of its title and body.
pub fn note_payload_from(title_json: &str, body_json: &str) -> (r: String)
    ensures
        r@ == note_payload(title_json@, body_json@),
{
    let mut s = String::new();
    s.append("{\"type\":\"note\",\"title\":");
    s.append(title_json);
    s.append(",\"body\":");
    s.append(body_json);
    s.append("}");
    assert(s@ =~= note_payload(title_json@, body_json@));
    s
}

/// The JSON payload of a notification: a note push with its title and body.
pub fn notification_payload(n: &Notification) -> (r: String)
    ensures
        r@ == note_payload(json_quoted(n.title@), json_quoted(n.body@)),
{
    let title = quote_json(n.title.as_str());
    let body = quote_json(n.body.as_str());
    note_payload_from(title.as_str(), body.as_str())
}

} // verus!
