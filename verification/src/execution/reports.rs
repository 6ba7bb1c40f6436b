use vstd::prelude::*;

use crate::decimal::{ExactDecimal, ValueOrder};
use crate::execution::model::{OrderSide, OrderStatus, OrderType, TimeInForce};
use crate::common::text::views;
use crate::http::models::{AlpacaOrderSide, AlpacaOrderStatus, AlpacaOrderType, AlpacaTimeInForce};

verus! {

/// Side of a reconciled position.
#[derive(Clone, Copy, Debug, PartialEq, Eq, Structural)]
pub enum PositionSide {
    Long,
    Short,
}

/// Why a venue report cannot be reconciled.
#[derive(Clone, Copy, Debug, PartialEq, Eq, Structural)]
pub enum ReportError {
    UnknownOrderStatus,
    UnknownPositionSide,
}

pub open spec fn spec_order_side(side: AlpacaOrderSide) -> OrderSide {
    match side {
        AlpacaOrderSide::Buy => OrderSide::Buy,
        AlpacaOrderSide::Sell => OrderSide::Sell,
    }
}

pub open spec fn spec_order_type(order_type: AlpacaOrderType) -> OrderType {
    match order_type {
        AlpacaOrderType::Market => OrderType::Market,
        AlpacaOrderType::Limit => OrderType::Limit,
        AlpacaOrderType::Stop => OrderType::StopMarket,
        AlpacaOrderType::StopLimit => OrderType::StopLimit,
        AlpacaOrderType::TrailingStop => OrderType::TrailingStopMarket,
    }
}

pub open spec fn spec_time_in_force(value: AlpacaTimeInForce) -> TimeInForce {
    match value {
        AlpacaTimeInForce::Day => TimeInForce::Day,
        AlpacaTimeInForce::Gtc => TimeInForce::Gtc,
        AlpacaTimeInForce::Opg => TimeInForce::AtTheOpen,
        AlpacaTimeInForce::Cls => TimeInForce::AtTheClose,
        AlpacaTimeInForce::Ioc => TimeInForce::Ioc,
        AlpacaTimeInForce::Fok => TimeInForce::Fok,
    }
}

pub fn parse_order_side(side: AlpacaOrderSide) -> (r: OrderSide)
    ensures
        r == (match side {
            AlpacaOrderSide::Buy => OrderSide::Buy,
            AlpacaOrderSide::Sell => OrderSide::Sell,
        }),
{
    match side {
        AlpacaOrderSide::Buy => OrderSide::Buy,
        AlpacaOrderSide::Sell => OrderSide::Sell,
    }
}

pub fn parse_order_type(order_type: AlpacaOrderType) -> (r: OrderType)
    ensures
        r == (match order_type {
            AlpacaOrderType::Market => OrderType::Market,
            AlpacaOrderType::Limit => OrderType::Limit,
            AlpacaOrderType::Stop => OrderType::StopMarket,
            AlpacaOrderType::StopLimit => OrderType::StopLimit,
            AlpacaOrderType::TrailingStop => OrderType::TrailingStopMarket,
        }),
{
    match order_type {
        AlpacaOrderType::Market => OrderType::Market,
        AlpacaOrderType::Limit => OrderType::Limit,
        AlpacaOrderType::Stop => OrderType::StopMarket,
        AlpacaOrderType::StopLimit => OrderType::StopLimit,
        AlpacaOrderType::TrailingStop => OrderType::TrailingStopMarket,
    }
}

pub fn parse_time_in_force(value: AlpacaTimeInForce) -> (r: TimeInForce)
    ensures
        r == (match value {
            AlpacaTimeInForce::Day => TimeInForce::Day,
            AlpacaTimeInForce::Gtc => TimeInForce::Gtc,
            AlpacaTimeInForce::Opg => TimeInForce::AtTheOpen,
            AlpacaTimeInForce::Cls => TimeInForce::AtTheClose,
            AlpacaTimeInForce::Ioc => TimeInForce::Ioc,
            AlpacaTimeInForce::Fok => TimeInForce::Fok,
        }),
{
    match value {
        AlpacaTimeInForce::Day => TimeInForce::Day,
        AlpacaTimeInForce::Gtc => TimeInForce::Gtc,
        AlpacaTimeInForce::Opg => TimeInForce::AtTheOpen,
        AlpacaTimeInForce::Cls => TimeInForce::AtTheClose,
        AlpacaTimeInForce::Ioc => TimeInForce::Ioc,
        AlpacaTimeInForce::Fok => TimeInForce::Fok,
    }
}

/// The platform status of a venue order; a venue order that is done for the day or calculated
/// counts as filled once its filled quantity reaches the order quantity, and as canceled before.
pub open spec fn spec_order_status(
    value: AlpacaOrderStatus,
    quantity: ExactDecimal,
    filled_qty: ExactDecimal,
) -> Result<OrderStatus, ReportError> {
    match value {
        AlpacaOrderStatus::New | AlpacaOrderStatus::Accepted | AlpacaOrderStatus::AcceptedForBidding
        | AlpacaOrderStatus::Held => Ok(OrderStatus::Accepted),
        AlpacaOrderStatus::PartiallyFilled => Ok(OrderStatus::PartiallyFilled),
        AlpacaOrderStatus::Filled => Ok(OrderStatus::Filled),
        AlpacaOrderStatus::Canceled | AlpacaOrderStatus::Replaced => Ok(OrderStatus::Canceled),
        AlpacaOrderStatus::Expired => Ok(OrderStatus::Expired),
        AlpacaOrderStatus::PendingCancel => Ok(OrderStatus::PendingCancel),
        AlpacaOrderStatus::PendingReplace => Ok(OrderStatus::PendingUpdate),
        AlpacaOrderStatus::PendingNew => Ok(OrderStatus::Submitted),
        AlpacaOrderStatus::Stopped => Ok(OrderStatus::Triggered),
        AlpacaOrderStatus::Rejected | AlpacaOrderStatus::Suspended => Ok(OrderStatus::Rejected),
        AlpacaOrderStatus::DoneForDay | AlpacaOrderStatus::Calculated => if filled_qty.spec_compare(
            quantity,
        ) != ValueOrder::Less {
            Ok(OrderStatus::Filled)
        } else {
            Ok(OrderStatus::Canceled)
        },
        AlpacaOrderStatus::Unknown => Err(ReportError::UnknownOrderStatus),
    }
}

/// Terminal venue statuses reconcile to themselves: an expired order is expired whatever its
/// quantities, and only an expired order is; an order is canceled only when the venue canceled or
/// replaced it, or closed it (done for the day, calculated) before it was fully filled; a
/// rejected or suspended order is rejected, and only such an order.
pub proof fn lemma_terminal_statuses_reconcile_to_themselves(
    value: AlpacaOrderStatus,
    quantity: ExactDecimal,
    filled_qty: ExactDecimal,
)
    ensures
        value == AlpacaOrderStatus::Expired ==> spec_order_status(value, quantity, filled_qty)
            == Ok::<OrderStatus, ReportError>(OrderStatus::Expired),
        spec_order_status(value, quantity, filled_qty) == Ok::<OrderStatus, ReportError>(
            OrderStatus::Expired,
        ) ==> value == AlpacaOrderStatus::Expired,
        spec_order_status(value, quantity, filled_qty) == Ok::<OrderStatus, ReportError>(
            OrderStatus::Canceled,
        ) ==> value == AlpacaOrderStatus::Canceled || value == AlpacaOrderStatus::Replaced || ((value
            == AlpacaOrderStatus::DoneForDay || value == AlpacaOrderStatus::Calculated)
            && filled_qty.spec_compare(quantity) == ValueOrder::Less),
        (value == AlpacaOrderStatus::Canceled || value == AlpacaOrderStatus::Replaced) ==> spec_order_status(
            value,
            quantity,
            filled_qty,
        ) == Ok::<OrderStatus, ReportError>(OrderStatus::Canceled),
        (value == AlpacaOrderStatus::Rejected || value == AlpacaOrderStatus::Suspended) <==> spec_order_status(
            value,
            quantity,
            filled_qty,
        ) == Ok::<OrderStatus, ReportError>(OrderStatus::Rejected),
{
}

/// Maps a venue order status for reconciliation; an unknown status is an error rather than a
/// guess.
pub fn parse_order_status(
    value: AlpacaOrderStatus,
    quantity: ExactDecimal,
    filled_qty: ExactDecimal,
) -> (r: Result<OrderStatus, ReportError>)
    ensures
        r == spec_order_status(value, quantity, filled_qty),
{
    match value {
        AlpacaOrderStatus::New | AlpacaOrderStatus::Accepted | AlpacaOrderStatus::AcceptedForBidding
        | AlpacaOrderStatus::Held => Ok(OrderStatus::Accepted),
        AlpacaOrderStatus::PartiallyFilled => Ok(OrderStatus::PartiallyFilled),
        AlpacaOrderStatus::Filled => Ok(OrderStatus::Filled),
        AlpacaOrderStatus::Canceled | AlpacaOrderStatus::Replaced => Ok(OrderStatus::Canceled),
        AlpacaOrderStatus::Expired => Ok(OrderStatus::Expired),
        AlpacaOrderStatus::PendingCancel => Ok(OrderStatus::PendingCancel),
        AlpacaOrderStatus::PendingReplace => Ok(OrderStatus::PendingUpdate),
        AlpacaOrderStatus::PendingNew => Ok(OrderStatus::Submitted),
        AlpacaOrderStatus::Stopped => Ok(OrderStatus::Triggered),
        AlpacaOrderStatus::Rejected | AlpacaOrderStatus::Suspended => Ok(OrderStatus::Rejected),
        AlpacaOrderStatus::DoneForDay | AlpacaOrderStatus::Calculated => {
            match filled_qty.compare(&quantity) {
                ValueOrder::Less => Ok(OrderStatus::Canceled),
                _ => Ok(OrderStatus::Filled),
            }
        },
        AlpacaOrderStatus::Unknown => Err(ReportError::UnknownOrderStatus),
    }
}

/// The side of a venue position, `"long"` or `"short"`.
pub fn parse_position_side(side: &str) -> (r: Result<PositionSide, ReportError>)
    ensures
        r == (if side@ == "long"@ {
            Ok(PositionSide::Long)
        } else if side@ == "short"@ {
            Ok(PositionSide::Short)
        } else {
            Err(ReportError::UnknownPositionSide)
        }),
{
    if crate::common::text::str_eq(side, "long") {
        Ok(PositionSide::Long)
    } else if crate::common::text::str_eq(side, "short") {
        Ok(PositionSide::Short)
    } else {
        Err(ReportError::UnknownPositionSide)
    }
}

/// `x` occurs among the first `n` elements of `s`.
pub open spec fn in_prefix(s: Seq<Seq<char>>, n: int, x: Seq<char>) -> bool {
    exists|k: int| 0 <= k < n && #[trigger] s[k] == x
}

/// The order ids of fills whose order is not among the known orders, each once, in the order
/// of their first fill.
pub fn missing_fill_order_ids(fill_order_ids: &Vec<String>, known_order_ids: &Vec<String>) -> (r:
    Vec<String>)
    ensures
        forall|x: Seq<char>|
            #![trigger views(r@).contains(x)]
            views(r@).contains(x) <==> (views(fill_order_ids@).contains(x) && !views(
                known_order_ids@,
            ).contains(x)),
        crate::execution::trade_updates::no_duplicates(views(r@)),
{
    let ghost fills = views(fill_order_ids@);
    let ghost known = views(known_order_ids@);
    let mut out: Vec<String> = Vec::new();
    let mut i: usize = 0;
    while i < fill_order_ids.len()
        invariant
            i <= fill_order_ids@.len(),
            fills == views(fill_order_ids@),
            known == views(known_order_ids@),
            forall|x: Seq<char>|
                #![trigger views(out@).contains(x)]
                views(out@).contains(x) <==> (in_prefix(fills, i as int, x) && !known.contains(x)),
            crate::execution::trade_updates::no_duplicates(views(out@)),
        decreases fill_order_ids@.len() - i,
    {
        let id = &fill_order_ids[i];
        let ghost before = views(out@);
        assert(fills[i as int] == id@);
        let is_known = contains_string(known_order_ids, id);
        let is_listed = contains_string(&out, id);
        if !is_known && !is_listed {
            out.push(id.clone());
            assert(views(out@) =~= before.push(id@));
        } else {
            assert(views(out@) =~= before);
        }
        proof {
            let after = views(out@);
            assert(is_known == known.contains(id@));
            assert(is_listed == before.contains(id@));
            assert forall|x: Seq<char>| #![trigger after.contains(x)]
                after.contains(x) <==> (in_prefix(fills, i + 1, x) && !known.contains(x)) by {
                assert(before.contains(x) <==> (in_prefix(fills, i as int, x) && !known.contains(x)));
                if x == id@ {
                    assert(in_prefix(fills, i + 1, x));
                    if !known.contains(x) {
                        if before.contains(x) {
                            let k = choose|k: int| 0 <= k < before.len() && before[k] == x;
                            assert(after[k] == x);
                        } else {
                            assert(after[before.len() as int] == x);
                        }
                    }
                } else {
                    if in_prefix(fills, i + 1, x) {
                        let k = choose|k: int| 0 <= k < i + 1 && #[trigger] fills[k] == x;
                        assert(in_prefix(fills, i as int, x));
                    }
                    if in_prefix(fills, i as int, x) {
                        let k = choose|k: int| 0 <= k < i && #[trigger] fills[k] == x;
                        assert(in_prefix(fills, i + 1, x));
                    }
                    if after.contains(x) {
                        let k = choose|k: int| 0 <= k < after.len() && after[k] == x;
                        if k < before.len() {
                            assert(before[k] == x);
                        }
                    }
                    if before.contains(x) {
                        let k = choose|k: int| 0 <= k < before.len() && before[k] == x;
                        assert(after[k] == x);
                    }
                }
            }
            assert forall|p: int, q: int| 0 <= p < q < after.len() implies after[p] != after[q] by {
                if q == before.len() {
                    assert(before[p] == after[p]);
                }
            }
        }
        i = i + 1;
    }
    proof {
        assert forall|x: Seq<char>| #![trigger fills.contains(x)]
            fills.contains(x) <==> in_prefix(fills, fills.len() as int, x) by {
            if fills.contains(x) {
                let k = choose|k: int| 0 <= k < fills.len() && fills[k] == x;
                assert(in_prefix(fills, fills.len() as int, x));
            }
        }
    }
    out
}

/// Whether `id` is among `ids`.
pub fn contains_string(ids: &Vec<String>, id: &String) -> (r: bool)
    ensures
        r == views(ids@).contains(id@),
{
    let mut i: usize = 0;
    while i < ids.len()
        invariant
            i <= ids@.len(),
            forall|j: int| 0 <= j < i ==> ids@[j]@ != id@,
        decreases ids@.len() - i,
    {
        if ids[i] == *id {
            assert(views(ids@)[i as int] == id@);
            return true;
        }
        i = i + 1;
    }
    assert(!views(ids@).contains(id@)) by {
        if views(ids@).contains(id@) {
            let k = choose|k: int| 0 <= k < ids@.len() && #[trigger] views(ids@)[k] == id@;
            assert(views(ids@)[k] == ids@[k]@);
        }
    }
    false
}

/// What an order status report reads of a venue order; times are nanoseconds since the epoch.
#[derive(Clone, Debug)]
pub struct VenueOrderFacts {
    pub venue_order_id: String,
    pub client_order_id: String,
    pub side: AlpacaOrderSide,
    pub order_type: AlpacaOrderType,
    pub time_in_force: AlpacaTimeInForce,
    pub status: AlpacaOrderStatus,
    pub qty: ExactDecimal,
    pub filled_qty: ExactDecimal,
    pub limit_price: Option<ExactDecimal>,
    pub stop_price: Option<ExactDecimal>,
    pub filled_avg_price: Option<ExactDecimal>,
    pub created_at: i64,
    pub submitted_at: Option<i64>,
    pub updated_at: i64,
}

/// The platform's view of a venue order, for reconciliation.
#[derive(Clone, Debug)]
pub struct OrderReport {
    pub venue_order_id: String,
    pub client_order_id: String,
    pub side: OrderSide,
    pub order_type: OrderType,
    pub time_in_force: TimeInForce,
    pub status: OrderStatus,
    pub quantity: ExactDecimal,
    pub filled_qty: ExactDecimal,
    pub price: Option<ExactDecimal>,
    pub trigger_price: Option<ExactDecimal>,
    pub avg_px: Option<ExactDecimal>,
    /// When the venue accepted the order: its submission time, else its creation time.
    pub ts_accepted: i64,
    pub ts_last: i64,
}

/// The status report of a venue order; an unknown status is refused.
pub fn order_report(o: &VenueOrderFacts) -> (r: Result<OrderReport, ReportError>)
    ensures
        spec_order_status(o.status, o.qty, o.filled_qty) is Err ==> r == Err::<OrderReport, ReportError>(
            ReportError::UnknownOrderStatus,
        ),
        spec_order_status(o.status, o.qty, o.filled_qty) matches Ok(status) ==> (r matches Ok(
            rep,
        ) && {
            &&& rep.venue_order_id@ == o.venue_order_id@
            &&& rep.client_order_id@ == o.client_order_id@
            &&& rep.side == spec_order_side(o.side)
            &&& rep.order_type == spec_order_type(o.order_type)
            &&& rep.time_in_force == spec_time_in_force(o.time_in_force)
            &&& rep.status == status
            &&& rep.quantity == o.qty && rep.filled_qty == o.filled_qty
            &&& rep.price == o.limit_price && rep.trigger_price == o.stop_price
            &&& rep.avg_px == o.filled_avg_price
            &&& rep.ts_accepted == (match o.submitted_at {
                Some(t) => t,
                None => o.created_at,
            })
            &&& rep.ts_last == o.updated_at
        }),
{
    let status = match parse_order_status(o.status, o.qty, o.filled_qty) {
        Ok(s) => s,
        Err(e) => {
            return Err(e);
        },
    };
    let ts_accepted = match o.submitted_at {
        Some(t) => t,
        None => o.created_at,
    };
    Ok(
        OrderReport {
            venue_order_id: o.venue_order_id.clone(),
            client_order_id: o.client_order_id.clone(),
            side: parse_order_side(o.side),
            order_type: parse_order_type(o.order_type),
            time_in_force: parse_time_in_force(o.time_in_force),
            status,
            quantity: o.qty,
            filled_qty: o.filled_qty,
            price: o.limit_price,
            trigger_price: o.stop_price,
            avg_px: o.filled_avg_price,
            ts_accepted,
            ts_last: o.updated_at,
        },
    )
}

/// The platform's view of a venue position.
#[derive(Clone, Copy, Debug)]
pub struct PositionReport {
    pub side: PositionSide,
    /// The size of the position, without sign.
    pub quantity: ExactDecimal,
    pub avg_entry_price: ExactDecimal,
}

/// The status report of a venue position: its side, and its quantity without sign.
pub fn position_report(side: &str, qty: ExactDecimal, avg_entry_price: ExactDecimal) -> (r: Result<
    PositionReport,
    ReportError,
>)
    ensures
        !(side@ == "long"@ || side@ == "short"@) ==> r == Err::<PositionReport, ReportError>(
            ReportError::UnknownPositionSide,
        ),
        side@ == "long"@ || side@ == "short"@ ==> (r matches Ok(p) && {
            &&& p.side == (if side@ == "long"@ {
                PositionSide::Long
            } else {
                PositionSide::Short
            })
            &&& p.quantity.digits == qty.digits && p.quantity.scale == qty.scale
                && !p.quantity.negative
            &&& p.avg_entry_price == avg_entry_price
        }),
{
    let side = match parse_position_side(side) {
        Ok(s) => s,
        Err(e) => {
            return Err(e);
        },
    };
    Ok(PositionReport { side, quantity: qty.abs(), avg_entry_price })
}

} // verus!
