//! Tracked stocks and price alerts as the data store holds them, and what
//! the store's update and delete operations do to its rows.
use vstd::prelude::*;
use crate::price::{stored_price, stored_price_of, valid_price, lemma_stored_price_stable};

verus! {

/// A tracked stock: its ticker and its baseline price in micro-units.
#[derive(Clone, Debug)]
pub struct StockPrice {
    pub name: String,
    pub lastprice: u64,
}

/// The side of the target on which an alert fires.
#[derive(Clone, Copy, Debug, PartialEq, Eq, Structural)]
pub enum Direction {
    /// Fires once the quote is above the target.
    Above,
    /// Fires once the quote is below the target.
    Below,
}

/// A price alert: a ticker, a target price in micro-units and a direction.
#[derive(Clone, Debug)]
pub struct Alert {
    pub name: String,
    pub targetprice: u64,
    pub direction: Direction,
}

impl StockPrice {
    /// A field-by-field copy of the row.
    pub fn duplicate(&self) -> (r: StockPrice)
        ensures
            r == *self,
    {
        StockPrice { name: self.name.clone(), lastprice: self.lastprice }
    }
}

impl Alert {
    /// A field-by-field copy of the alert.
    pub fn duplicate(&self) -> (r: Alert)
        ensures
            r == *self,
    {
        Alert { name: self.name.clone(), targetprice: self.targetprice, direction: self.direction }
    }
}

impl Direction {
    /// The direction stored as a small integer: `1` is above, any other
    /// code below.
    pub fn from_code(code: i8) -> (r: Direction)
        ensures
            r == (if code == 1 {
                Direction::Above
            } else {
                Direction::Below
            }),
    {
        if code == 1 {
            Direction::Above
        } else {
            Direction::Below
        }
    }

    /// The integer code of the direction: `1` above, `0` below.
    pub fn code(&self) -> (r: i8)
        ensures
            r == (if *self == Direction::Above {
                1i8
            } else {
                0i8
            }),
    {
        match self {
            Direction::Above => 1,
            Direction::Below => 0,
        }
    }
}

/// An alert with this direction and target fires on this quote.
pub open spec fn triggers(direction: Direction, target: int, quote: int) -> bool {
    match direction {
        Direction::Above => quote > target,
        Direction::Below => quote < target,
    }
}

/// Whether `alert` fires on the quote `quote`.
pub fn alert_triggered(alert: &Alert, quote: u64) -> (r: bool)
    ensures
        r == triggers(alert.direction, alert.targetprice as int, quote as int),
{
    match alert.direction {
        Direction::Above => quote > alert.targetprice,
        Direction::Below => quote < alert.targetprice,
    }
}

/// A stock row after the store has set the price of `name` to `price`.
pub open spec fn updated_row(row: StockPrice, name: Seq<char>, price: int) -> StockPrice {
    if row.name@ == name {
        StockPrice { name: row.name, lastprice: stored_price(price) as u64 }
    } else {
        row
    }
}

/// The stock rows after the store has set the price of `name` to `price`:
/// every row of that name takes the price rounded to cents, the others stay.
pub open spec fn updated_rows(rows: Seq<StockPrice>, name: Seq<char>, price: int) -> Seq<
    StockPrice,
> {
    rows.map_values(|row: StockPrice| updated_row(row, name, price))
}

/// An alert row that a delete for `name` and `target` removes.
pub open spec fn alert_matches(row: Alert, name: Seq<char>, target: int) -> bool {
    row.name@ == name && row.targetprice == target
}

/// The alert rows that a delete for `name` and `target` leaves, in order.
pub open spec fn remaining_alerts(rows: Seq<Alert>, name: Seq<char>, target: int) -> Seq<Alert> {
    rows.filter(|row: Alert| !alert_matches(row, name, target))
}

/// Sets the price of every row named `name` to `price` rounded to cents,
/// as the store's update does.
pub fn apply_price_update(rows: &mut Vec<StockPrice>, name: &String, price: u64)
    requires
        valid_price(price as int),
    ensures
        final(rows)@ == updated_rows(old(rows)@, name@, price as int),
{
    let stored = stored_price_of(price);
    let n = rows.len();
    let mut i: usize = 0;
    while i < n
        invariant
            n == rows@.len() == old(rows)@.len(),
            i <= n,
            stored == stored_price(price as int),
            forall|j: int| 0 <= j < i ==> rows@[j] == updated_row(old(rows)@[j], name@, price as int),
            forall|j: int| i <= j < n ==> rows@[j] == old(rows)@[j],
        decreases n - i,
    {
        if rows[i].name == *name {
            rows[i].lastprice = stored;
        }
        i = i + 1;
    }
    assert(rows@ =~= updated_rows(old(rows)@, name@, price as int));
}

/// The alerts left after the store deletes those named `name` with target
/// `target`.
pub fn delete_alerts(rows: &Vec<Alert>, name: &String, target: u64) -> (r: Vec<Alert>)
    ensures
        r@ == remaining_alerts(rows@, name@, target as int),
{
    let ghost pred = |row: Alert| !alert_matches(row, name@, target as int);
    let mut out: Vec<Alert> = Vec::new();
    let mut i: usize = 0;
    while i < rows.len()
        invariant
            i <= rows@.len(),
            pred == (|row: Alert| !alert_matches(row, name@, target as int)),
            out@ == rows@.subrange(0, i as int).filter(pred),
        decreases rows@.len() - i,
    {
        proof {
            assert(rows@.subrange(0, i + 1).drop_last() =~= rows@.subrange(0, i as int));
            reveal(Seq::filter);
        }
        let keep = !(rows[i].name == *name && rows[i].targetprice == target);
        if keep {
            out.push(rows[i].duplicate());
        }
        i = i + 1;
    }
    assert(rows@.subrange(0, rows@.len() as int) =~= rows@);
    out
}

/// Storing a price twice leaves the rows as storing it once.
pub proof fn lemma_update_idempotent(rows: Seq<StockPrice>, name: Seq<char>, price: int)
    requires
        valid_price(price),
    ensures
        updated_rows(updated_rows(rows, name, price), name, price) == updated_rows(rows, name, price),
{
    lemma_stored_price_stable(price);
    assert(updated_rows(updated_rows(rows, name, price), name, price) =~= updated_rows(rows, name, price));
}

proof fn lemma_kept_was_there(rows: Seq<Alert>, pred: spec_fn(Alert) -> bool, a: Alert)
    requires
        rows.filter(pred).contains(a),
    ensures
        rows.contains(a),
    decreases rows.len(),
{
    reveal(Seq::filter);
    if rows.len() > 0 {
        let rest = rows.drop_last();
        if rest.filter(pred).contains(a) {
            lemma_kept_was_there(rest, pred, a);
            let i = choose|i: int| 0 <= i < rest.len() && rest[i] == a;
            assert(rows[i] == a);
        } else {
            assert(rows[rows.len() - 1] == a);
        }
    }
}

/// Deleting by name and target removes exactly the alerts that match both:
/// an alert remains if and only if it was there and differs in name or in
/// target, so an alert of the same name with another target is untouched.
pub proof fn lemma_delete_exact(rows: Seq<Alert>, name: Seq<char>, target: int)
    ensures
        forall|a: Alert|
            #[trigger] remaining_alerts(rows, name, target).contains(a) <==> (rows.contains(a)
                && !alert_matches(a, name, target)),
        forall|a: Alert|
            rows.contains(a) && a.name@ == name && a.targetprice != target ==> #[trigger] remaining_alerts(
                rows,
                name,
                target,
            ).contains(a),
{
    let pred = |row: Alert| !alert_matches(row, name, target);
    assert forall|a: Alert|
        #[trigger] remaining_alerts(rows, name, target).contains(a) <==> (rows.contains(a)
            && !alert_matches(a, name, target)) by {
        if rows.contains(a) && pred(a) {
            rows.lemma_filter_contains_rev(pred, a);
        }
        if rows.filter(pred).contains(a) {
            lemma_kept_was_there(rows, pred, a);
            broadcast use vstd::seq_lib::group_filter_ensures;
        }
    }
}

} // verus!
