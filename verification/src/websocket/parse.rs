use vstd::prelude::*;

use crate::decimal::{ExactDecimal, MAX_DIGITS};

verus! {

/// Shares in one round lot of a US equity quote.
pub const US_EQUITY_ROUND_LOT_SIZE: u64 = 100;

/// Quote sizes arrive in round lots; the platform counts shares: the size times one hundred,
/// at the same scale.
pub fn round_lots_to_shares(lots: ExactDecimal) -> (r: ExactDecimal)
    requires
        lots.digits <= MAX_DIGITS,
    ensures
        r.negative == lots.negative,
        r.digits == lots.digits * US_EQUITY_ROUND_LOT_SIZE,
        r.scale == lots.scale,
        r.signed() == lots.signed() * 100,
{
    lots.mul_100()
}

/// The bid and ask sizes of a quote in shares.
pub fn quote_sizes_in_shares(bid_lots: ExactDecimal, ask_lots: ExactDecimal) -> (r: (
    ExactDecimal,
    ExactDecimal,
))
    requires
        bid_lots.digits <= MAX_DIGITS,
        ask_lots.digits <= MAX_DIGITS,
    ensures
        r.0.signed() == bid_lots.signed() * 100 && r.0.scale == bid_lots.scale,
        r.1.signed() == ask_lots.signed() * 100 && r.1.scale == ask_lots.scale,
{
    (round_lots_to_shares(bid_lots), round_lots_to_shares(ask_lots))
}

} // verus!
