use vstd::prelude::*;

use crate::execution::model::OrderSide;
use crate::http::models::AlpacaOrderSide;

verus! {

/// Page size of the order listing.
pub const ORDER_PAGE_LIMIT: usize = 500;

/// Page size of the fill-activity listing.
pub const FILL_PAGE_SIZE: usize = 100;

/// A listing whose cursor did not move on a full page would repeat forever.
#[derive(Clone, Copy, Debug, PartialEq, Eq, Structural)]
pub enum PaginationError {
    Stalled,
}

pub open spec fn opt_str_view(s: Option<String>) -> Option<Seq<char>> {
    match s {
        Some(v) => Some(v@),
        None => None,
    }
}

pub open spec fn opt_result_view(r: Result<Option<String>, PaginationError>) -> Result<
    Option<Seq<char>>,
    PaginationError,
> {
    match r {
        Ok(c) => Ok(opt_str_view(c)),
        Err(e) => Err(e),
    }
}

fn opt_string_eq(a: &Option<String>, b: &Option<String>) -> (r: bool)
    ensures
        r == (opt_str_view(*a) == opt_str_view(*b)),
{
    match (a, b) {
        (Some(x), Some(y)) => *x == *y,
        (None, None) => true,
        _ => false,
    }
}

/// One page of the order history, newest first: `Ok(Some(cursor))` asks for the next page
/// before `cursor`, `Ok(None)` ends the listing (a short page, or a page reaching back to the
/// start bound), and a full page whose last id equals the cursor is an error.
pub open spec fn spec_order_history_step(
    cursor: Option<Seq<char>>,
    page_len: nat,
    last: Option<(Seq<char>, i64)>,
    start: Option<i64>,
) -> Result<Option<Seq<char>>, PaginationError> {
    let next = match last {
        Some(l) => Some(l.0),
        None => None,
    };
    if next == cursor && page_len >= ORDER_PAGE_LIMIT {
        Err(PaginationError::Stalled)
    } else if page_len < ORDER_PAGE_LIMIT || (start is Some && last is Some && (last->0).1
        <= start->0) {
        Ok(None)
    } else {
        Ok(next)
    }
}

/// Advances the order-history listing after a page with `page_len` orders whose last (oldest)
/// order has id and submission time `last`.
pub fn order_history_step(
    cursor: &Option<String>,
    page_len: usize,
    last: &Option<(String, i64)>,
    start: Option<i64>,
) -> (r: Result<Option<String>, PaginationError>)
    requires
        (page_len > 0) == (last is Some),
    ensures
        opt_result_view(r) == spec_order_history_step(
            opt_str_view(*cursor),
            page_len as nat,
            match *last {
                Some(l) => Some((l.0@, l.1)),
                None => None,
            },
            start,
        ),
        r matches Ok(Some(_)) ==> page_len >= ORDER_PAGE_LIMIT,
{
    let next: Option<String> = match last {
        Some(l) => Some(l.0.clone()),
        None => None,
    };
    if opt_string_eq(&next, cursor) && page_len >= ORDER_PAGE_LIMIT {
        return Err(PaginationError::Stalled);
    }
    let crossed_start = match (start, last) {
        (Some(bound), Some(l)) => l.1 <= bound,
        _ => false,
    };
    if page_len < ORDER_PAGE_LIMIT || crossed_start {
        return Ok(None);
    }
    Ok(next)
}

/// The time bounds of an order-history query: only the first page carries them.
pub fn order_history_bounds(first_page: bool, start: Option<i64>, end: Option<i64>) -> (r: (
    Option<i64>,
    Option<i64>,
))
    ensures
        r == (if first_page {
            (start, end)
        } else {
            (None, None)
        }),
{
    if first_page {
        (start, end)
    } else {
        (None, None)
    }
}

/// An order is reported when it was submitted strictly inside the requested window.
pub fn in_order_window(submitted: i64, start: Option<i64>, end: Option<i64>) -> (r: bool)
    ensures
        r == ((start matches Some(s) ==> submitted > s) && (end matches Some(e) ==> submitted < e)),
{
    let after_start = match start {
        Some(s) => submitted > s,
        None => true,
    };
    let before_end = match end {
        Some(e) => submitted < e,
        None => true,
    };
    after_start && before_end
}

/// One page of the fill history, oldest first: a short page ends the listing.
pub open spec fn spec_fill_history_step(
    cursor: Option<Seq<char>>,
    page_len: nat,
    last_id: Option<Seq<char>>,
) -> Result<Option<Seq<char>>, PaginationError> {
    if last_id == cursor && page_len >= FILL_PAGE_SIZE {
        Err(PaginationError::Stalled)
    } else if page_len < FILL_PAGE_SIZE {
        Ok(None)
    } else {
        Ok(last_id)
    }
}

/// Advances the fill-history listing after a page with `page_len` fills.
pub fn fill_history_step(cursor: &Option<String>, page_len: usize, last_id: &Option<String>) -> (r:
    Result<Option<String>, PaginationError>)
    requires
        (page_len > 0) == (last_id is Some),
    ensures
        opt_result_view(r) == spec_fill_history_step(
            opt_str_view(*cursor),
            page_len as nat,
            opt_str_view(*last_id),
        ),
{
    if opt_string_eq(last_id, cursor) && page_len >= FILL_PAGE_SIZE {
        return Err(PaginationError::Stalled);
    }
    if page_len < FILL_PAGE_SIZE {
        return Ok(None);
    }
    Ok(last_id.clone())
}

/// One page of the open orders to cancel: a full page that repeats the cursor is an error and a
/// short page ends the listing.
pub open spec fn spec_open_orders_step(
    cursor: Option<Seq<char>>,
    page_len: nat,
    last_id: Option<Seq<char>>,
) -> Result<Option<Seq<char>>, PaginationError> {
    if last_id == cursor && page_len == ORDER_PAGE_LIMIT {
        Err(PaginationError::Stalled)
    } else if page_len < ORDER_PAGE_LIMIT {
        Ok(None)
    } else {
        Ok(last_id)
    }
}

/// Advances the cancel-all listing of open orders after a page with `page_len` orders.
pub fn open_orders_step(cursor: &Option<String>, page_len: usize, last_id: &Option<String>) -> (r:
    Result<Option<String>, PaginationError>)
    requires
        (page_len > 0) == (last_id is Some),
    ensures
        opt_result_view(r) == spec_open_orders_step(
            opt_str_view(*cursor),
            page_len as nat,
            opt_str_view(*last_id),
        ),
{
    if opt_string_eq(last_id, cursor) && page_len == ORDER_PAGE_LIMIT {
        return Err(PaginationError::Stalled);
    }
    if page_len < ORDER_PAGE_LIMIT {
        return Ok(None);
    }
    Ok(last_id.clone())
}

/// Cancel-all cancels every open order of the instrument, or only those on the given side.
pub fn cancel_all_selects(order_side: AlpacaOrderSide, side_filter: Option<OrderSide>) -> (r: bool)
    ensures
        r == (match side_filter {
            None => true,
            Some(OrderSide::Buy) => order_side == AlpacaOrderSide::Buy,
            Some(OrderSide::Sell) => order_side == AlpacaOrderSide::Sell,
        }),
{
    match side_filter {
        None => true,
        Some(OrderSide::Buy) => order_side == AlpacaOrderSide::Buy,
        Some(OrderSide::Sell) => order_side == AlpacaOrderSide::Sell,
    }
}

} // verus!
