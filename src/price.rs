//! Prices in micro-units, and rounding to cents.
use vstd::prelude::*;

verus! {

/// Micro-units in one whole currency unit.
pub const MICROS_PER_UNIT: u64 = 1_000_000;

/// Micro-units in one cent.
pub const MICROS_PER_CENT: u64 = 10_000;

/// Largest price the library handles: one thousand billion units.
pub const MAX_PRICE: u64 = 1_000_000_000_000_000_000;

/// A price that the library accepts.
pub open spec fn valid_price(p: int) -> bool {
    0 <= p <= MAX_PRICE
}

/// Whole cents of a price, rounding half a cent up.
pub open spec fn cents_of(micros: int) -> int {
    (micros + MICROS_PER_CENT / 2) / (MICROS_PER_CENT as int)
}

/// The price as stored in the data store: rounded to two decimal places.
pub open spec fn stored_price(micros: int) -> int {
    cents_of(micros) * MICROS_PER_CENT
}

/// Rounds a price to whole cents (half a cent rounds up).
pub fn round_to_cents(micros: u64) -> (r: u64)
    requires
        valid_price(micros as int),
    ensures
        r == cents_of(micros as int),
{
    (micros + MICROS_PER_CENT / 2) / MICROS_PER_CENT
}

/// The price in micro-units that storing `micros` leaves in the store.
pub fn stored_price_of(micros: u64) -> (r: u64)
    requires
        valid_price(micros as int),
    ensures
        r == stored_price(micros as int),
        valid_price(r as int),
{
    let c = round_to_cents(micros);
    proof {
        assert(c * MICROS_PER_CENT <= micros + MICROS_PER_CENT / 2) by (nonlinear_arith)
            requires
                c == (micros + MICROS_PER_CENT / 2) / (MICROS_PER_CENT as int),
        ;
    }
    c * MICROS_PER_CENT
}

/// Rounding to cents is stable: storing a stored price again changes nothing,
/// so writing the same price twice leaves the same stored value as writing it once.
pub proof fn lemma_stored_price_stable(micros: int)
    requires
        valid_price(micros),
    ensures
        stored_price(stored_price(micros)) == stored_price(micros),
        cents_of(stored_price(micros)) == cents_of(micros),
{
    let c = cents_of(micros);
    assert((c * 10_000 + 5_000) / 10_000 == c) by (nonlinear_arith);
}

} // verus!
