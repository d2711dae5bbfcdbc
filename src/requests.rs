//! The data store's REST requests: their URLs and bodies.
use vstd::prelude::*;
use crate::price::{cents_of, round_to_cents, valid_price};
use crate::text::{fixed2, push_fixed2, push_shortest, shortest};

verus! {

/// URL that lists the tracked stocks.
pub open spec fn stocks_url_of(base: Seq<char>) -> Seq<char> {
    base + "/rest/v1/stocks"@
}

/// URL that lists the price alerts.
pub open spec fn alerts_url_of(base: Seq<char>) -> Seq<char> {
    base + "/rest/v1/alerts"@
}

/// URL that updates the stock rows named `name`.
pub open spec fn stock_update_url_of(base: Seq<char>, name: Seq<char>) -> Seq<char> {
    base + "/rest/v1/stocks?name=eq."@ + name
}

/// Body of a stock update: the price rounded to two decimals.
pub open spec fn lastprice_body_of(price: int) -> Seq<char> {
    "{\"lastprice\":"@ + fixed2(cents_of(price) as nat) + "}"@
}

/// URL that deletes the alerts named `name` with target `target`; the target
/// is written in its shortest decimal form.
pub open spec fn alert_delete_url_of(base: Seq<char>, name: Seq<char>, target: nat) -> Seq<
    char,
> {
    base + "/rest/v1/alerts?name=eq."@ + name + "&targetprice=eq."@ + shortest(target)
}

/// The URL that lists the tracked stocks of the store at `base`.
pub fn stocks_url(base: &str) -> (r: String)
    ensures
        r@ == stocks_url_of(base@),
{
    let mut s = base.to_owned();
    s.append("/rest/v1/stocks");
    s
}

/// The URL that lists the price alerts of the store at `base`.
pub fn alerts_url(base: &str) -> (r: String)
    ensures
        r@ == alerts_url_of(base@),
{
    let mut s = base.to_owned();
    s.append("/rest/v1/alerts");
    s
}

/// The URL that updates the price of the stock `name`.
pub fn stock_update_url(base: &str, name: &str) -> (r: String)
    ensures
        r@ == stock_update_url_of(base@, name@),
{
    let mut s = base.to_owned();
    s.append("/rest/v1/stocks?name=eq.");
    s.append(name);
    s
}

/// The body that stores `price` rounded to two decimals.
pub fn lastprice_body(price: u64) -> (r: String)
    requires
        valid_price(price as int),
    ensures
        r@ == lastprice_body_of(price as int),
{
    let mut s = String::new();
    s.append("{\"lastprice\":");
    push_fixed2(&mut s, round_to_cents(price) as u128);
    s.append("}");
    assert(s@ =~= lastprice_body_of(price as int));
    s
}

/// The URL that deletes the alerts on `name` with target `target`.
pub fn alert_delete_url(base: &str, name: &str, target: u64) -> (r: String)
    ensures
        r@ == alert_delete_url_of(base@, name@, target as nat),
{
    let mut s = base.to_owned();
    s.append("/rest/v1/alerts?name=eq.");
    s.append(name);
    s.append("&targetprice=eq.");
    push_shortest(&mut s, target);
    assert(s@ =~= alert_delete_url_of(base@, name@, target as nat));
    s
}

} // verus!
