use vstd::prelude::*;

use crate::decimal::ExactDecimal;
use crate::execution::model::{
    ContingencyType, NativeOrder, NativeOrderView, OrderSide, OrderType, TimeInForce,
    TrailingOffsetType,
};
use crate::http::models::{
    AlpacaOrderClass, AlpacaOrderRequest, AlpacaOrderSide, AlpacaOrderType, AlpacaStopLossRequest,
    AlpacaTakeProfitRequest, AlpacaTimeInForce, OrderRequestView,
};

verus! {

/// The longest client order id the venue accepts, in bytes.
pub const MAX_CLIENT_ORDER_ID_BYTES: usize = 128;

/// The most decimal places of an equity quantity.
pub const MAX_QUANTITY_SCALE: u32 = 9;

/// Which price of a request a price check refers to.
#[derive(Clone, Copy, Debug, PartialEq, Eq, Structural)]
pub enum PriceField {
    LimitPrice,
    StopPrice,
    TakeProfitLimitPrice,
    StopLossStopPrice,
    StopLossLimitPrice,
}

/// Why an order or order list cannot be routed to the venue.
#[derive(Clone, Copy, Debug, PartialEq, Eq, Structural)]
pub enum OrderRejection {
    WrongVenue,
    QuoteQuantity,
    PostOnly,
    ReduceOnly,
    DisplayQuantity,
    Contingent,
    ClientOrderIdTooLong,
    UnsupportedOrderType(OrderType),
    GtdUnsupported,
    NonPositiveQuantity,
    QuantityTooPrecise,
    FractionalRequiresDay,
    ExtendedHoursRequiresLimit,
    UnsupportedTrailingOffsetType,
    TrailingOffsetRequired,
    LimitPriceRequired,
    StopPriceRequired,
    NonPositivePrice(PriceField),
    PriceTooPrecise { field: PriceField, max_scale: u32 },
    ListSize,
    ExtendedHoursUnsupported(AlpacaOrderClass),
    BracketLegCount,
    BracketEntryNotParent,
    BracketEntryType,
    BracketEntryFlags,
    BracketTimeInForce,
    BracketWrongParent,
    BracketLegMismatch,
    BracketExitNotOuo,
    BracketExitNotReduceOnly,
    BracketDuplicateTakeProfit,
    BracketDuplicateStopLoss,
    BracketUnsupportedExit(OrderType),
    BracketIncomplete,
    TakeProfitRequiresLimitPrice,
    StopLossRequiresStopPrice,
    OtoStructure,
    OtoParent,
    OtoChildMismatch,
    OtoUnsupportedChild(OrderType),
    OcoRequiresTakeProfit,
    OcoLegs,
    OcoRequiresStopLoss,
    OcoMismatch,
}

/// A translated order list: one venue request, the index of the order whose id the request
/// carries, and the indices of the orders that become its legs.
pub struct AdvancedOrder {
    pub request: AlpacaOrderRequest,
    pub primary: usize,
    pub children: Vec<usize>,
    pub class: AlpacaOrderClass,
}

// ---------------------------------------------------------------------------------------------
// Specification
// ---------------------------------------------------------------------------------------------

pub open spec fn spec_alpaca_side(side: OrderSide) -> AlpacaOrderSide {
    match side {
        OrderSide::Buy => AlpacaOrderSide::Buy,
        OrderSide::Sell => AlpacaOrderSide::Sell,
    }
}

/// The venue order type, for the five types the venue supports.
pub open spec fn spec_alpaca_type(order_type: OrderType) -> Option<AlpacaOrderType> {
    match order_type {
        OrderType::Market => Some(AlpacaOrderType::Market),
        OrderType::Limit => Some(AlpacaOrderType::Limit),
        OrderType::StopMarket => Some(AlpacaOrderType::Stop),
        OrderType::StopLimit => Some(AlpacaOrderType::StopLimit),
        OrderType::TrailingStopMarket => Some(AlpacaOrderType::TrailingStop),
        _ => None,
    }
}

/// The venue time in force; the venue has no GTD for equities.
pub open spec fn spec_alpaca_tif(tif: TimeInForce) -> Option<AlpacaTimeInForce> {
    match tif {
        TimeInForce::Day => Some(AlpacaTimeInForce::Day),
        TimeInForce::Gtc => Some(AlpacaTimeInForce::Gtc),
        TimeInForce::Ioc => Some(AlpacaTimeInForce::Ioc),
        TimeInForce::Fok => Some(AlpacaTimeInForce::Fok),
        TimeInForce::AtTheOpen => Some(AlpacaTimeInForce::Opg),
        TimeInForce::AtTheClose => Some(AlpacaTimeInForce::Cls),
        TimeInForce::Gtd => None,
    }
}

/// Most decimals a positive equity price may carry: two from one dollar up, four below.
pub open spec fn spec_max_price_scale(price: ExactDecimal) -> u32 {
    if price.spec_at_least_one() {
        2
    } else {
        4
    }
}

/// The sub-penny rule for one optional price.
pub open spec fn spec_price_rejection(field: PriceField, price: Option<ExactDecimal>) -> Option<
    OrderRejection,
> {
    match price {
        None => None,
        Some(p) => if !p.spec_is_positive() {
            Some(OrderRejection::NonPositivePrice(field))
        } else if p.spec_normalized_scale() > spec_max_price_scale(p) {
            Some(OrderRejection::PriceTooPrecise { field, max_scale: spec_max_price_scale(p) })
        } else {
            None
        },
    }
}

/// Equity quantities are positive with at most nine decimals.
pub open spec fn spec_quantity_rejection(quantity: ExactDecimal) -> Option<OrderRejection> {
    if !quantity.spec_is_positive() {
        Some(OrderRejection::NonPositiveQuantity)
    } else if quantity.spec_normalized_scale() > MAX_QUANTITY_SCALE {
        Some(OrderRejection::QuantityTooPrecise)
    } else {
        None
    }
}

/// Fractional quantities only trade with DAY time in force.
pub open spec fn spec_fractional_rejection(quantity: ExactDecimal, tif: TimeInForce) -> Option<
    OrderRejection,
> {
    if !quantity.spec_is_integer() && tif != TimeInForce::Day {
        Some(OrderRejection::FractionalRequiresDay)
    } else {
        None
    }
}

/// The `(trail_price, trail_percent)` pair; basis points become a percentage.
pub open spec fn spec_trailing_terms(o: NativeOrderView) -> Result<
    (Option<ExactDecimal>, Option<ExactDecimal>),
    OrderRejection,
> {
    match (o.trailing_offset, o.trailing_offset_type) {
        (Some(offset), Some(TrailingOffsetType::Price)) => Ok((Some(offset), None)),
        (Some(offset), Some(TrailingOffsetType::BasisPoints)) => Ok(
            (None, Some(offset.spec_hundredth())),
        ),
        (None, _) => Ok((None, None)),
        _ => Err(OrderRejection::UnsupportedTrailingOffsetType),
    }
}

pub open spec fn client_id_bytes(o: NativeOrderView) -> nat {
    vstd::utf8::encode_utf8(o.client_order_id).len()
}

/// The checks that do not depend on the venue order type, in the order the adapter makes them.
pub open spec fn spec_order_gate(
    o: NativeOrderView,
    venue: Seq<char>,
    advanced_leg: bool,
) -> Option<OrderRejection> {
    if o.venue != venue {
        Some(OrderRejection::WrongVenue)
    } else if o.is_quote_quantity {
        Some(OrderRejection::QuoteQuantity)
    } else if !advanced_leg && o.is_post_only {
        Some(OrderRejection::PostOnly)
    } else if !advanced_leg && o.is_reduce_only {
        Some(OrderRejection::ReduceOnly)
    } else if o.has_display_qty {
        Some(OrderRejection::DisplayQuantity)
    } else if !advanced_leg && o.contingency_type is Some {
        Some(OrderRejection::Contingent)
    } else if client_id_bytes(o) > MAX_CLIENT_ORDER_ID_BYTES {
        Some(OrderRejection::ClientOrderIdTooLong)
    } else {
        None
    }
}

/// The request for a single order, or the first check it fails.
pub open spec fn spec_single_order(
    o: NativeOrderView,
    venue: Seq<char>,
    extended_hours: bool,
    advanced_leg: bool,
) -> Result<OrderRequestView, OrderRejection> {
    if let Some(e) = spec_order_gate(o, venue, advanced_leg) {
        Err(e)
    } else if spec_alpaca_type(o.order_type) is None {
        Err(OrderRejection::UnsupportedOrderType(o.order_type))
    } else if spec_alpaca_tif(o.time_in_force) is None {
        Err(OrderRejection::GtdUnsupported)
    } else if let Some(e) = spec_quantity_rejection(o.quantity) {
        Err(e)
    } else if let Some(e) = spec_fractional_rejection(o.quantity, o.time_in_force) {
        Err(e)
    } else {
        let order_type = spec_alpaca_type(o.order_type)->0;
        let tif = spec_alpaca_tif(o.time_in_force)->0;
        if extended_hours && !(order_type == AlpacaOrderType::Limit && (tif
            == AlpacaTimeInForce::Day || tif == AlpacaTimeInForce::Gtc)) {
            Err(OrderRejection::ExtendedHoursRequiresLimit)
        } else if spec_trailing_terms(o) is Err {
            Err(OrderRejection::UnsupportedTrailingOffsetType)
        } else {
            let (trail_price, trail_percent) = spec_trailing_terms(o)->Ok_0;
            if order_type == AlpacaOrderType::TrailingStop && trail_price is None
                && trail_percent is None {
                Err(OrderRejection::TrailingOffsetRequired)
            } else if (order_type == AlpacaOrderType::Limit || order_type
                == AlpacaOrderType::StopLimit) && o.price is None {
                Err(OrderRejection::LimitPriceRequired)
            } else if (order_type == AlpacaOrderType::Stop || order_type
                == AlpacaOrderType::StopLimit) && o.trigger_price is None {
                Err(OrderRejection::StopPriceRequired)
            } else if let Some(e) = spec_price_rejection(PriceField::LimitPrice, o.price) {
                Err(e)
            } else if let Some(e) = spec_price_rejection(PriceField::StopPrice, o.trigger_price) {
                Err(e)
            } else {
                Ok(
                    OrderRequestView {
                        symbol: o.symbol,
                        qty: o.quantity,
                        side: spec_alpaca_side(o.side),
                        order_type,
                        time_in_force: tif,
                        client_order_id: o.client_order_id,
                        limit_price: o.price,
                        stop_price: o.trigger_price,
                        trail_price,
                        trail_percent,
                        extended_hours,
                        order_class: None,
                        take_profit: None,
                        stop_loss: None,
                    },
                )
            }
        }
    }
}

/// The sub-penny rule applied to the prices of the take-profit and stop-loss legs.
pub open spec fn spec_nested_price_rejection(r: OrderRequestView) -> Option<OrderRejection> {
    let tp = match r.take_profit {
        Some(t) => spec_price_rejection(PriceField::TakeProfitLimitPrice, Some(t.limit_price)),
        None => None,
    };
    if tp is Some {
        tp
    } else {
        match r.stop_loss {
            Some(s) => if spec_price_rejection(
                PriceField::StopLossStopPrice,
                Some(s.stop_price),
            ) is Some {
                spec_price_rejection(PriceField::StopLossStopPrice, Some(s.stop_price))
            } else {
                spec_price_rejection(PriceField::StopLossLimitPrice, s.limit_price)
            },
            None => None,
        }
    }
}

pub open spec fn is_stop_type(t: OrderType) -> bool {
    t == OrderType::StopMarket || t == OrderType::StopLimit
}

pub open spec fn is_day_or_gtc(t: TimeInForce) -> bool {
    t == TimeInForce::Day || t == TimeInForce::Gtc
}

/// An exit leg matches its entry: same instrument, quantity and time in force, opposite side.
pub open spec fn spec_exit_matches(entry: NativeOrderView, child: NativeOrderView) -> bool {
    &&& child.same_instrument(entry)
    &&& child.side != entry.side
    &&& child.quantity.spec_compare(entry.quantity) == crate::decimal::ValueOrder::Equal
    &&& child.time_in_force == entry.time_in_force
}

/// One bracket exit leg folded into the take-profit and stop-loss found so far.
pub open spec fn spec_bracket_exit(
    entry: NativeOrderView,
    child: NativeOrderView,
    take_profit: Option<AlpacaTakeProfitRequest>,
    stop_loss: Option<AlpacaStopLossRequest>,
) -> Result<(Option<AlpacaTakeProfitRequest>, Option<AlpacaStopLossRequest>), OrderRejection> {
    if child.parent_order_id != Some(entry.client_order_id) {
        Err(OrderRejection::BracketWrongParent)
    } else if !spec_exit_matches(entry, child) {
        Err(OrderRejection::BracketLegMismatch)
    } else if child.contingency_type != Some(ContingencyType::Ouo) {
        Err(OrderRejection::BracketExitNotOuo)
    } else if !child.is_reduce_only {
        Err(OrderRejection::BracketExitNotReduceOnly)
    } else if child.order_type == OrderType::Limit {
        if take_profit is Some {
            Err(OrderRejection::BracketDuplicateTakeProfit)
        } else if child.price is None {
            Err(OrderRejection::TakeProfitRequiresLimitPrice)
        } else {
            Ok((Some(AlpacaTakeProfitRequest { limit_price: child.price->0 }), stop_loss))
        }
    } else if is_stop_type(child.order_type) {
        if stop_loss is Some {
            Err(OrderRejection::BracketDuplicateStopLoss)
        } else if child.trigger_price is None {
            Err(OrderRejection::StopLossRequiresStopPrice)
        } else {
            Ok(
                (
                    take_profit,
                    Some(
                        AlpacaStopLossRequest {
                            stop_price: child.trigger_price->0,
                            limit_price: child.price,
                        },
                    ),
                ),
            )
        }
    } else {
        Err(OrderRejection::BracketUnsupportedExit(child.order_type))
    }
}

/// The request with its class and exit legs set.
pub open spec fn with_legs(
    r: OrderRequestView,
    class: AlpacaOrderClass,
    take_profit: Option<AlpacaTakeProfitRequest>,
    stop_loss: Option<AlpacaStopLossRequest>,
) -> OrderRequestView {
    OrderRequestView { order_class: Some(class), take_profit, stop_loss, ..r }
}

/// Every single order that the translation accepts goes to the venue as it was written: on
/// the right venue, with its exact quantity and prices, and within the venue's rules for
/// sub-penny prices, quantity precision, fractional time in force and extended hours.
pub proof fn lemma_accepted_order_obeys_venue_rules(
    o: NativeOrderView,
    venue: Seq<char>,
    extended_hours: bool,
    advanced_leg: bool,
)
    requires
        spec_single_order(o, venue, extended_hours, advanced_leg) is Ok,
    ensures
        ({
            let r = spec_single_order(o, venue, extended_hours, advanced_leg)->Ok_0;
            &&& o.venue == venue
            &&& r.symbol == o.symbol && r.client_order_id == o.client_order_id
            &&& r.qty == o.quantity && r.limit_price == o.price && r.stop_price == o.trigger_price
            &&& spec_quantity_rejection(r.qty) is None
            &&& spec_fractional_rejection(r.qty, o.time_in_force) is None
            &&& spec_price_rejection(PriceField::LimitPrice, r.limit_price) is None
            &&& spec_price_rejection(PriceField::StopPrice, r.stop_price) is None
            &&& r.extended_hours == extended_hours
            &&& extended_hours ==> r.order_type == AlpacaOrderType::Limit && (r.time_in_force
                == AlpacaTimeInForce::Day || r.time_in_force == AlpacaTimeInForce::Gtc)
        }),
{
}

/// An accepted single order keeps its time in force at the venue: at-the-open orders go to the
/// opening auction (OPG), at-the-close orders to the closing auction (CLS), and DAY, GTC, IOC and
/// FOK keep their names; a GTD order is never accepted. Reading the venue's time in force back
/// gives the order's own.
pub proof fn lemma_accepted_order_keeps_time_in_force(
    o: NativeOrderView,
    venue: Seq<char>,
    extended_hours: bool,
    advanced_leg: bool,
)
    ensures
        spec_single_order(o, venue, extended_hours, advanced_leg) matches Ok(r) ==> {
            &&& (o.time_in_force == TimeInForce::AtTheOpen <==> r.time_in_force == AlpacaTimeInForce::Opg)
            &&& (o.time_in_force == TimeInForce::AtTheClose <==> r.time_in_force == AlpacaTimeInForce::Cls)
            &&& (o.time_in_force == TimeInForce::Day <==> r.time_in_force == AlpacaTimeInForce::Day)
            &&& (o.time_in_force == TimeInForce::Gtc <==> r.time_in_force == AlpacaTimeInForce::Gtc)
            &&& (o.time_in_force == TimeInForce::Ioc <==> r.time_in_force == AlpacaTimeInForce::Ioc)
            &&& (o.time_in_force == TimeInForce::Fok <==> r.time_in_force == AlpacaTimeInForce::Fok)
            &&& o.time_in_force != TimeInForce::Gtd
            &&& crate::execution::reports::spec_time_in_force(r.time_in_force) == o.time_in_force
        },
{
}

/// A price with more decimals than the sub-penny rule allows is refused, whatever order it
/// stands in.
pub proof fn lemma_sub_penny_price_is_refused(
    o: NativeOrderView,
    venue: Seq<char>,
    extended_hours: bool,
    advanced_leg: bool,
)
    requires
        o.price matches Some(p) && p.spec_is_positive() && p.spec_normalized_scale()
            > spec_max_price_scale(p),
    ensures
        spec_single_order(o, venue, extended_hours, advanced_leg) is Err,
{
}

/// The nested price check applied to a finished request.
pub open spec fn checked_request(r: OrderRequestView) -> Result<OrderRequestView, OrderRejection> {
    if let Some(e) = spec_nested_price_rejection(r) {
        Err(e)
    } else {
        Ok(r)
    }
}

/// A bracket: an OTO entry followed by a take-profit and a stop-loss exit.
pub open spec fn spec_bracket(
    orders: Seq<NativeOrderView>,
    venue: Seq<char>,
    extended_hours: bool,
) -> Result<OrderRequestView, OrderRejection> {
    if orders.len() != 3 {
        Err(OrderRejection::BracketLegCount)
    } else if extended_hours {
        Err(OrderRejection::ExtendedHoursUnsupported(AlpacaOrderClass::Bracket))
    } else {
        let entry = orders[0];
        if entry.parent_order_id is Some || entry.contingency_type != Some(ContingencyType::Oto) {
            Err(OrderRejection::BracketEntryNotParent)
        } else if !(entry.order_type == OrderType::Market || entry.order_type == OrderType::Limit) {
            Err(OrderRejection::BracketEntryType)
        } else if entry.is_post_only || entry.is_reduce_only {
            Err(OrderRejection::BracketEntryFlags)
        } else if !is_day_or_gtc(entry.time_in_force) {
            Err(OrderRejection::BracketTimeInForce)
        } else {
            let first = spec_bracket_exit(entry, orders[1], None, None);
            if first is Err {
                Err(first->Err_0)
            } else {
                let second = spec_bracket_exit(
                    entry,
                    orders[2],
                    first->Ok_0.0,
                    first->Ok_0.1,
                );
                if second is Err {
                    Err(second->Err_0)
                } else if second->Ok_0.0 is None || second->Ok_0.1 is None {
                    Err(OrderRejection::BracketIncomplete)
                } else {
                    let inner = spec_single_order(entry, venue, false, true);
                    if inner is Err {
                        inner
                    } else {
                        checked_request(
                            with_legs(
                                inner->Ok_0,
                                AlpacaOrderClass::Bracket,
                                second->Ok_0.0,
                                second->Ok_0.1,
                            ),
                        )
                    }
                }
            }
        }
    }
}

/// The exit leg of an OTO list set on the parent's request.
pub open spec fn spec_oto_exit(r: OrderRequestView, child: NativeOrderView) -> Result<
    OrderRequestView,
    OrderRejection,
> {
    if child.order_type == OrderType::Limit {
        if child.price is None {
            Err(OrderRejection::TakeProfitRequiresLimitPrice)
        } else {
            Ok(
                OrderRequestView {
                    take_profit: Some(AlpacaTakeProfitRequest { limit_price: child.price->0 }),
                    ..r
                },
            )
        }
    } else if is_stop_type(child.order_type) {
        if child.trigger_price is None {
            Err(OrderRejection::StopLossRequiresStopPrice)
        } else {
            Ok(
                OrderRequestView {
                    stop_loss: Some(
                        AlpacaStopLossRequest {
                            stop_price: child.trigger_price->0,
                            limit_price: child.price,
                        },
                    ),
                    ..r
                },
            )
        }
    } else {
        Err(OrderRejection::OtoUnsupportedChild(child.order_type))
    }
}

/// An OTO list: a parent followed by one exit that triggers once the parent fills.
pub open spec fn spec_oto(
    orders: Seq<NativeOrderView>,
    venue: Seq<char>,
    extended_hours: bool,
) -> Result<OrderRequestView, OrderRejection>
    recommends
        orders.len() == 2,
{
    let parent = orders[0];
    let child = orders[1];
    if extended_hours {
        Err(OrderRejection::ExtendedHoursUnsupported(AlpacaOrderClass::Oto))
    } else if !(parent.parent_order_id is None && parent.contingency_type == Some(
        ContingencyType::Oto,
    ) && child.parent_order_id == Some(parent.client_order_id)) {
        Err(OrderRejection::OtoStructure)
    } else if !((parent.order_type == OrderType::Market || parent.order_type == OrderType::Limit)
        && is_day_or_gtc(parent.time_in_force) && !parent.is_post_only && !parent.is_reduce_only) {
        Err(OrderRejection::OtoParent)
    } else if !(spec_exit_matches(parent, child) && child.is_reduce_only) {
        Err(OrderRejection::OtoChildMismatch)
    } else {
        let inner = spec_single_order(parent, venue, false, true);
        if inner is Err {
            inner
        } else {
            let base = OrderRequestView {
                order_class: Some(AlpacaOrderClass::Oto),
                ..inner->Ok_0
            };
            let with_exit = spec_oto_exit(base, child);
            if with_exit is Err {
                with_exit
            } else {
                checked_request(with_exit->Ok_0)
            }
        }
    }
}

/// Index of the take-profit leg of an OCO pair: the first LIMIT order.
pub open spec fn spec_oco_profit_index(orders: Seq<NativeOrderView>) -> Option<int> {
    if orders[0].order_type == OrderType::Limit {
        Some(0)
    } else if orders[1].order_type == OrderType::Limit {
        Some(1)
    } else {
        None
    }
}

pub open spec fn is_oco_leg(o: NativeOrderView) -> bool {
    o.parent_order_id is None && o.contingency_type == Some(ContingencyType::Oco)
        && o.is_reduce_only
}

/// An OCO pair: a LIMIT take-profit and a stop-loss exit of the same position.
pub open spec fn spec_oco(
    orders: Seq<NativeOrderView>,
    venue: Seq<char>,
    extended_hours: bool,
) -> Result<(OrderRequestView, int), OrderRejection>
    recommends
        orders.len() == 2,
{
    if extended_hours {
        Err(OrderRejection::ExtendedHoursUnsupported(AlpacaOrderClass::Oco))
    } else if spec_oco_profit_index(orders) is None {
        Err(OrderRejection::OcoRequiresTakeProfit)
    } else {
        let pi = spec_oco_profit_index(orders)->0;
        let profit = orders[pi];
        let stop = orders[1 - pi];
        if !(is_oco_leg(orders[0]) && is_oco_leg(orders[1])) {
            Err(OrderRejection::OcoLegs)
        } else if !is_stop_type(stop.order_type) {
            Err(OrderRejection::OcoRequiresStopLoss)
        } else if !(profit.same_instrument(stop) && profit.side == stop.side
            && profit.quantity.spec_compare(stop.quantity) == crate::decimal::ValueOrder::Equal
            && profit.time_in_force == stop.time_in_force && is_day_or_gtc(profit.time_in_force)) {
            Err(OrderRejection::OcoMismatch)
        } else {
            let inner = spec_single_order(profit, venue, false, true);
            if inner is Err {
                Err(inner->Err_0)
            } else if stop.trigger_price is None {
                Err(OrderRejection::StopLossRequiresStopPrice)
            } else {
                let r = OrderRequestView {
                    limit_price: None,
                    order_class: Some(AlpacaOrderClass::Oco),
                    take_profit: Some(AlpacaTakeProfitRequest { limit_price: profit.price->0 }),
                    stop_loss: Some(
                        AlpacaStopLossRequest {
                            stop_price: stop.trigger_price->0,
                            limit_price: stop.price,
                        },
                    ),
                    ..inner->Ok_0
                };
                if let Some(e) = spec_nested_price_rejection(r) {
                    Err(e)
                } else {
                    Ok((r, pi))
                }
            }
        }
    }
}

/// A translated order list: its request, primary index, leg indices and class.
pub open spec fn spec_advanced(
    orders: Seq<NativeOrderView>,
    venue: Seq<char>,
    extended_hours: bool,
) -> Result<(OrderRequestView, int, Seq<int>, AlpacaOrderClass), OrderRejection> {
    if orders.len() == 3 {
        match spec_bracket(orders, venue, extended_hours) {
            Ok(r) => Ok((r, 0, seq![1int, 2int], AlpacaOrderClass::Bracket)),
            Err(e) => Err(e),
        }
    } else if orders.len() != 2 {
        Err(OrderRejection::ListSize)
    } else if orders[0].contingency_type == Some(ContingencyType::Oto) {
        match spec_oto(orders, venue, extended_hours) {
            Ok(r) => Ok((r, 0, seq![1int], AlpacaOrderClass::Oto)),
            Err(e) => Err(e),
        }
    } else {
        match spec_oco(orders, venue, extended_hours) {
            Ok((r, pi)) => Ok((r, pi, seq![1 - pi], AlpacaOrderClass::Oco)),
            Err(e) => Err(e),
        }
    }
}

pub open spec fn request_result_view(r: Result<AlpacaOrderRequest, OrderRejection>) -> Result<
    OrderRequestView,
    OrderRejection,
> {
    match r {
        Ok(req) => Ok(req@),
        Err(e) => Err(e),
    }
}

pub open spec fn views_of(orders: Seq<NativeOrder>) -> Seq<NativeOrderView> {
    orders.map_values(|o: NativeOrder| o@)
}

pub open spec fn all_wf(orders: Seq<NativeOrder>) -> bool {
    forall|i: int| 0 <= i < orders.len() ==> (#[trigger] orders[i])@.wf()
}

// ---------------------------------------------------------------------------------------------
// Implementation
// ---------------------------------------------------------------------------------------------

pub open spec fn as_check(rejection: Option<OrderRejection>) -> Result<(), OrderRejection> {
    match rejection {
        Some(e) => Err(e),
        None => Ok(()),
    }
}

fn alpaca_side(side: OrderSide) -> (r: AlpacaOrderSide)
    ensures
        r == spec_alpaca_side(side),
{
    match side {
        OrderSide::Buy => AlpacaOrderSide::Buy,
        OrderSide::Sell => AlpacaOrderSide::Sell,
    }
}

fn alpaca_type(order_type: OrderType) -> (r: Option<AlpacaOrderType>)
    ensures
        r == spec_alpaca_type(order_type),
{
    match order_type {
        OrderType::Market => Some(AlpacaOrderType::Market),
        OrderType::Limit => Some(AlpacaOrderType::Limit),
        OrderType::StopMarket => Some(AlpacaOrderType::Stop),
        OrderType::StopLimit => Some(AlpacaOrderType::StopLimit),
        OrderType::TrailingStopMarket => Some(AlpacaOrderType::TrailingStop),
        _ => None,
    }
}

fn alpaca_tif(tif: TimeInForce) -> (r: Option<AlpacaTimeInForce>)
    ensures
        r == spec_alpaca_tif(tif),
{
    match tif {
        TimeInForce::Day => Some(AlpacaTimeInForce::Day),
        TimeInForce::Gtc => Some(AlpacaTimeInForce::Gtc),
        TimeInForce::Ioc => Some(AlpacaTimeInForce::Ioc),
        TimeInForce::Fok => Some(AlpacaTimeInForce::Fok),
        TimeInForce::AtTheOpen => Some(AlpacaTimeInForce::Opg),
        TimeInForce::AtTheClose => Some(AlpacaTimeInForce::Cls),
        TimeInForce::Gtd => None,
    }
}

fn parent_is(child: &NativeOrder, parent_id: &String) -> (r: bool)
    ensures
        r == (child@.parent_order_id == Some(parent_id@)),
{
    match &child.parent_order_id {
        Some(p) => *p == *parent_id,
        None => false,
    }
}

fn same_instrument(a: &NativeOrder, b: &NativeOrder) -> (r: bool)
    ensures
        r == a@.same_instrument(b@),
{
    a.symbol == b.symbol && a.venue == b.venue
}

fn exit_matches(entry: &NativeOrder, child: &NativeOrder) -> (r: bool)
    ensures
        r == spec_exit_matches(entry@, child@),
{
    same_instrument(child, entry) && child.side != entry.side && child.quantity.same_value(
        &entry.quantity,
    ) && child.time_in_force == entry.time_in_force
}

/// Rejects a quantity that is not positive or has more than nine decimals.
pub fn validate_equity_quantity(quantity: ExactDecimal) -> (r: Result<(), OrderRejection>)
    ensures
        r == as_check(spec_quantity_rejection(quantity)),
{
    if !quantity.is_positive() {
        return Err(OrderRejection::NonPositiveQuantity);
    }
    if quantity.normalized_scale() > MAX_QUANTITY_SCALE {
        return Err(OrderRejection::QuantityTooPrecise);
    }
    Ok(())
}

/// Rejects a fractional quantity unless the time in force is DAY.
pub fn validate_fractional_time_in_force(quantity: ExactDecimal, tif: TimeInForce) -> (r: Result<
    (),
    OrderRejection,
>)
    ensures
        r == as_check(spec_fractional_rejection(quantity, tif)),
{
    if !quantity.is_integer() && tif != TimeInForce::Day {
        return Err(OrderRejection::FractionalRequiresDay);
    }
    Ok(())
}

/// The sub-penny rule: a positive price with at most two decimals from one dollar up and at
/// most four below.
pub fn validate_equity_order_price(field: PriceField, price: Option<ExactDecimal>) -> (r: Result<
    (),
    OrderRejection,
>)
    ensures
        r == as_check(spec_price_rejection(field, price)),
{
    match price {
        None => Ok(()),
        Some(p) => {
            if !p.is_positive() {
                return Err(OrderRejection::NonPositivePrice(field));
            }
            let max_scale: u32 = if p.at_least_one() {
                2
            } else {
                4
            };
            if p.normalized_scale() > max_scale {
                return Err(OrderRejection::PriceTooPrecise { field, max_scale });
            }
            Ok(())
        },
    }
}

/// The sub-penny rule on the take-profit and stop-loss prices of a request.
pub fn validate_alpaca_nested_prices(request: &AlpacaOrderRequest) -> (r: Result<
    (),
    OrderRejection,
>)
    ensures
        r == as_check(spec_nested_price_rejection(request@)),
{
    if let Some(take_profit) = &request.take_profit {
        validate_equity_order_price(PriceField::TakeProfitLimitPrice, Some(take_profit.limit_price))?;
    }
    if let Some(stop_loss) = &request.stop_loss {
        validate_equity_order_price(PriceField::StopLossStopPrice, Some(stop_loss.stop_price))?;
        validate_equity_order_price(PriceField::StopLossLimitPrice, stop_loss.limit_price)?;
    }
    Ok(())
}

fn trailing_terms(order: &NativeOrder) -> (r: Result<
    (Option<ExactDecimal>, Option<ExactDecimal>),
    OrderRejection,
>)
    requires
        order@.wf(),
    ensures
        r == spec_trailing_terms(order@),
{
    match (order.trailing_offset, order.trailing_offset_type) {
        (Some(offset), Some(TrailingOffsetType::Price)) => Ok((Some(offset), None)),
        (Some(offset), Some(TrailingOffsetType::BasisPoints)) => Ok((None, Some(offset.hundredth()))),
        (None, _) => Ok((None, None)),
        _ => Err(OrderRejection::UnsupportedTrailingOffsetType),
    }
}

fn order_gate(order: &NativeOrder, venue: &str, advanced_leg: bool) -> (r: Option<OrderRejection>)
    ensures
        r == spec_order_gate(order@, venue@, advanced_leg),
{
    if !crate::common::text::str_eq(order.venue.as_str(), venue) {
        return Some(OrderRejection::WrongVenue);
    }
    if order.is_quote_quantity {
        return Some(OrderRejection::QuoteQuantity);
    }
    if !advanced_leg && order.is_post_only {
        return Some(OrderRejection::PostOnly);
    }
    if !advanced_leg && order.is_reduce_only {
        return Some(OrderRejection::ReduceOnly);
    }
    if order.has_display_qty {
        return Some(OrderRejection::DisplayQuantity);
    }
    if !advanced_leg && order.contingency_type.is_some() {
        return Some(OrderRejection::Contingent);
    }
    let bytes = order.client_order_id.as_str().as_bytes();
    proof {
        broadcast use vstd::slice::axiom_spec_len;
    }
    if bytes.len() > MAX_CLIENT_ORDER_ID_BYTES {
        return Some(OrderRejection::ClientOrderIdTooLong);
    }
    None
}

/// Translates a single order into the venue's order request.
pub fn to_alpaca_order(order: &NativeOrder, venue: &str, extended_hours: bool) -> (r: Result<
    AlpacaOrderRequest,
    OrderRejection,
>)
    requires
        order@.wf(),
    ensures
        request_result_view(r) == spec_single_order(order@, venue@, extended_hours, false),
{
    to_alpaca_order_inner(order, venue, extended_hours, false)
}

/// Translates one order; `advanced_leg` relaxes the checks that an order list makes itself
/// (post-only, reduce-only and contingency flags).
pub fn to_alpaca_order_inner(
    order: &NativeOrder,
    venue: &str,
    extended_hours: bool,
    advanced_leg: bool,
) -> (r: Result<AlpacaOrderRequest, OrderRejection>)
    requires
        order@.wf(),
    ensures
        request_result_view(r) == spec_single_order(order@, venue@, extended_hours, advanced_leg),
{
    if let Some(e) = order_gate(order, venue, advanced_leg) {
        return Err(e);
    }
    let side = alpaca_side(order.side);
    let order_type = match alpaca_type(order.order_type) {
        Some(t) => t,
        None => return Err(OrderRejection::UnsupportedOrderType(order.order_type)),
    };
    let time_in_force = match alpaca_tif(order.time_in_force) {
        Some(t) => t,
        None => return Err(OrderRejection::GtdUnsupported),
    };
    validate_equity_quantity(order.quantity)?;
    validate_fractional_time_in_force(order.quantity, order.time_in_force)?;
    if extended_hours {
        if !(order_type == AlpacaOrderType::Limit && (time_in_force == AlpacaTimeInForce::Day
            || time_in_force == AlpacaTimeInForce::Gtc)) {
            return Err(OrderRejection::ExtendedHoursRequiresLimit);
        }
    }
    let (trail_price, trail_percent) = trailing_terms(order)?;
    if order_type == AlpacaOrderType::TrailingStop {
        if trail_price.is_none() && trail_percent.is_none() {
            return Err(OrderRejection::TrailingOffsetRequired);
        }
    }
    if order_type == AlpacaOrderType::Limit || order_type == AlpacaOrderType::StopLimit {
        if order.price.is_none() {
            return Err(OrderRejection::LimitPriceRequired);
        }
    }
    if order_type == AlpacaOrderType::Stop || order_type == AlpacaOrderType::StopLimit {
        if order.trigger_price.is_none() {
            return Err(OrderRejection::StopPriceRequired);
        }
    }
    validate_equity_order_price(PriceField::LimitPrice, order.price)?;
    validate_equity_order_price(PriceField::StopPrice, order.trigger_price)?;
    Ok(
        AlpacaOrderRequest {
            symbol: order.symbol.clone(),
            qty: order.quantity,
            side,
            order_type,
            time_in_force,
            client_order_id: order.client_order_id.clone(),
            limit_price: order.price,
            stop_price: order.trigger_price,
            trail_price,
            trail_percent,
            extended_hours,
            order_class: None,
            take_profit: None,
            stop_loss: None,
        },
    )
}

fn bracket_exit(
    entry: &NativeOrder,
    child: &NativeOrder,
    take_profit: Option<AlpacaTakeProfitRequest>,
    stop_loss: Option<AlpacaStopLossRequest>,
) -> (r: Result<(Option<AlpacaTakeProfitRequest>, Option<AlpacaStopLossRequest>), OrderRejection>)
    ensures
        r == spec_bracket_exit(entry@, child@, take_profit, stop_loss),
{
    if !parent_is(child, &entry.client_order_id) {
        return Err(OrderRejection::BracketWrongParent);
    }
    if !exit_matches(entry, child) {
        return Err(OrderRejection::BracketLegMismatch);
    }
    if child.contingency_type != Some(ContingencyType::Ouo) {
        return Err(OrderRejection::BracketExitNotOuo);
    }
    if !child.is_reduce_only {
        return Err(OrderRejection::BracketExitNotReduceOnly);
    }
    match child.order_type {
        OrderType::Limit => {
            if take_profit.is_some() {
                return Err(OrderRejection::BracketDuplicateTakeProfit);
            }
            match child.price {
                Some(limit_price) => Ok((Some(AlpacaTakeProfitRequest { limit_price }), stop_loss)),
                None => Err(OrderRejection::TakeProfitRequiresLimitPrice),
            }
        },
        OrderType::StopMarket | OrderType::StopLimit => {
            if stop_loss.is_some() {
                return Err(OrderRejection::BracketDuplicateStopLoss);
            }
            match child.trigger_price {
                Some(stop_price) => Ok(
                    (
                        take_profit,
                        Some(AlpacaStopLossRequest { stop_price, limit_price: child.price }),
                    ),
                ),
                None => Err(OrderRejection::StopLossRequiresStopPrice),
            }
        },
        other => Err(OrderRejection::BracketUnsupportedExit(other)),
    }
}

/// Translates an entry with a take-profit and a stop-loss exit into one bracket request.
pub fn to_alpaca_bracket_order(orders: &[NativeOrder], venue: &str, extended_hours: bool) -> (r:
    Result<AlpacaOrderRequest, OrderRejection>)
    requires
        all_wf(orders@),
    ensures
        request_result_view(r) == spec_bracket(views_of(orders@), venue@, extended_hours),
{
    let ghost v = views_of(orders@);
    if orders.len() != 3 {
        return Err(OrderRejection::BracketLegCount);
    }
    assert(v[0] == orders@[0]@ && v[1] == orders@[1]@ && v[2] == orders@[2]@);
    if extended_hours {
        return Err(OrderRejection::ExtendedHoursUnsupported(AlpacaOrderClass::Bracket));
    }
    let entry = &orders[0];
    if entry.parent_order_id.is_some() || entry.contingency_type != Some(ContingencyType::Oto) {
        return Err(OrderRejection::BracketEntryNotParent);
    }
    if !(entry.order_type == OrderType::Market || entry.order_type == OrderType::Limit) {
        return Err(OrderRejection::BracketEntryType);
    }
    if entry.is_post_only || entry.is_reduce_only {
        return Err(OrderRejection::BracketEntryFlags);
    }
    if !(entry.time_in_force == TimeInForce::Day || entry.time_in_force == TimeInForce::Gtc) {
        return Err(OrderRejection::BracketTimeInForce);
    }
    let (tp, sl) = bracket_exit(entry, &orders[1], None, None)?;
    let (take_profit, stop_loss) = bracket_exit(entry, &orders[2], tp, sl)?;
    if take_profit.is_none() || stop_loss.is_none() {
        return Err(OrderRejection::BracketIncomplete);
    }
    let mut request = to_alpaca_order_inner(entry, venue, false, true)?;
    request.order_class = Some(AlpacaOrderClass::Bracket);
    request.take_profit = take_profit;
    request.stop_loss = stop_loss;
    validate_alpaca_nested_prices(&request)?;
    Ok(request)
}

/// Rejects an OTO exit that is not an opposing reduce-only order for the same instrument,
/// quantity and time in force.
pub fn validate_advanced_exit(parent: &NativeOrder, child: &NativeOrder) -> (r: Result<
    (),
    OrderRejection,
>)
    ensures
        r is Ok <==> (spec_exit_matches(parent@, child@) && child@.is_reduce_only),
        r matches Err(e) ==> e == OrderRejection::OtoChildMismatch,
{
    if !(exit_matches(parent, child) && child.is_reduce_only) {
        return Err(OrderRejection::OtoChildMismatch);
    }
    Ok(())
}

/// Sets the take-profit or stop-loss of an OTO request from its exit order.
pub fn set_advanced_exit(request: &mut AlpacaOrderRequest, child: &NativeOrder) -> (r: Result<
    (),
    OrderRejection,
>)
    ensures
        match spec_oto_exit(old(request)@, child@) {
            Ok(v) => r is Ok && final(request)@ == v,
            Err(e) => r == Err::<(), OrderRejection>(e) && final(request)@ == old(request)@,
        },
{
    match child.order_type {
        OrderType::Limit => {
            match child.price {
                Some(limit_price) => {
                    request.take_profit = Some(AlpacaTakeProfitRequest { limit_price });
                    Ok(())
                },
                None => Err(OrderRejection::TakeProfitRequiresLimitPrice),
            }
        },
        OrderType::StopMarket | OrderType::StopLimit => {
            match child.trigger_price {
                Some(stop_price) => {
                    request.stop_loss = Some(
                        AlpacaStopLossRequest { stop_price, limit_price: child.price },
                    );
                    Ok(())
                },
                None => Err(OrderRejection::StopLossRequiresStopPrice),
            }
        },
        other => Err(OrderRejection::OtoUnsupportedChild(other)),
    }
}

pub open spec fn advanced_view(a: AdvancedOrder) -> (
    OrderRequestView,
    int,
    Seq<int>,
    AlpacaOrderClass,
) {
    (a.request@, a.primary as int, a.children@.map_values(|i: usize| i as int), a.class)
}

pub open spec fn advanced_result_view(r: Result<AdvancedOrder, OrderRejection>) -> Result<
    (OrderRequestView, int, Seq<int>, AlpacaOrderClass),
    OrderRejection,
> {
    match r {
        Ok(a) => Ok(advanced_view(a)),
        Err(e) => Err(e),
    }
}

/// Translates a parent and its exit into one OTO request.
pub fn to_alpaca_oto_order(orders: &[NativeOrder], venue: &str, extended_hours: bool) -> (r:
    Result<AdvancedOrder, OrderRejection>)
    requires
        orders.len() == 2,
        all_wf(orders@),
    ensures
        match r {
            Ok(a) => spec_oto(views_of(orders@), venue@, extended_hours) == Ok::<
                OrderRequestView,
                OrderRejection,
            >(a.request@) && a.primary == 0 && a.children@ == seq![1usize] && a.class
                == AlpacaOrderClass::Oto,
            Err(e) => spec_oto(views_of(orders@), venue@, extended_hours) == Err::<
                OrderRequestView,
                OrderRejection,
            >(e),
        },
{
    let ghost v = views_of(orders@);
    assert(v[0] == orders@[0]@ && v[1] == orders@[1]@);
    if extended_hours {
        return Err(OrderRejection::ExtendedHoursUnsupported(AlpacaOrderClass::Oto));
    }
    let parent = &orders[0];
    let child = &orders[1];
    if !(parent.parent_order_id.is_none() && parent.contingency_type == Some(ContingencyType::Oto)
        && parent_is(child, &parent.client_order_id)) {
        return Err(OrderRejection::OtoStructure);
    }
    if !((parent.order_type == OrderType::Market || parent.order_type == OrderType::Limit) && (
    parent.time_in_force == TimeInForce::Day || parent.time_in_force == TimeInForce::Gtc)
        && !parent.is_post_only && !parent.is_reduce_only) {
        return Err(OrderRejection::OtoParent);
    }
    validate_advanced_exit(parent, child)?;
    let mut request = to_alpaca_order_inner(parent, venue, false, true)?;
    request.order_class = Some(AlpacaOrderClass::Oto);
    set_advanced_exit(&mut request, child)?;
    validate_alpaca_nested_prices(&request)?;
    Ok(AdvancedOrder { request, primary: 0, children: vec![1], class: AlpacaOrderClass::Oto })
}

/// Translates a take-profit and a stop-loss exit of the same position into one OCO request,
/// carried by the take-profit order.
pub fn to_alpaca_oco_order(orders: &[NativeOrder], venue: &str, extended_hours: bool) -> (r:
    Result<AdvancedOrder, OrderRejection>)
    requires
        orders.len() == 2,
        all_wf(orders@),
    ensures
        match r {
            Ok(a) => spec_oco(views_of(orders@), venue@, extended_hours) == Ok::<
                (OrderRequestView, int),
                OrderRejection,
            >((a.request@, a.primary as int)) && a.children@ == seq![(1 - a.primary) as usize]
                && a.class == AlpacaOrderClass::Oco,
            Err(e) => spec_oco(views_of(orders@), venue@, extended_hours) == Err::<
                (OrderRequestView, int),
                OrderRejection,
            >(e),
        },
{
    let ghost v = views_of(orders@);
    assert(v[0] == orders@[0]@ && v[1] == orders@[1]@);
    if extended_hours {
        return Err(OrderRejection::ExtendedHoursUnsupported(AlpacaOrderClass::Oco));
    }
    let profit_index: usize = if orders[0].order_type == OrderType::Limit {
        0
    } else if orders[1].order_type == OrderType::Limit {
        1
    } else {
        return Err(OrderRejection::OcoRequiresTakeProfit);
    };
    let stop_index: usize = 1 - profit_index;
    let profit = &orders[profit_index];
    let stop = &orders[stop_index];
    let leg0 = &orders[0];
    let leg1 = &orders[1];
    if !(leg0.parent_order_id.is_none() && leg0.contingency_type == Some(ContingencyType::Oco)
        && leg0.is_reduce_only && leg1.parent_order_id.is_none() && leg1.contingency_type == Some(
        ContingencyType::Oco,
    ) && leg1.is_reduce_only) {
        return Err(OrderRejection::OcoLegs);
    }
    if !(stop.order_type == OrderType::StopMarket || stop.order_type == OrderType::StopLimit) {
        return Err(OrderRejection::OcoRequiresStopLoss);
    }
    if !(same_instrument(profit, stop) && profit.side == stop.side && profit.quantity.same_value(
        &stop.quantity,
    ) && profit.time_in_force == stop.time_in_force && (profit.time_in_force == TimeInForce::Day
        || profit.time_in_force == TimeInForce::Gtc)) {
        return Err(OrderRejection::OcoMismatch);
    }
    let mut request = to_alpaca_order_inner(profit, venue, false, true)?;
    let limit_price = match profit.price {
        Some(p) => p,
        None => return Err(OrderRejection::LimitPriceRequired),
    };
    let stop_price = match stop.trigger_price {
        Some(p) => p,
        None => return Err(OrderRejection::StopLossRequiresStopPrice),
    };
    request.limit_price = None;
    request.order_class = Some(AlpacaOrderClass::Oco);
    request.take_profit = Some(AlpacaTakeProfitRequest { limit_price });
    request.stop_loss = Some(AlpacaStopLossRequest { stop_price, limit_price: stop.price });
    validate_alpaca_nested_prices(&request)?;
    Ok(
        AdvancedOrder {
            request,
            primary: profit_index,
            children: vec![stop_index],
            class: AlpacaOrderClass::Oco,
        },
    )
}

/// Translates a native order list into one venue request: three orders form a bracket, two
/// form an OTO when the first is an OTO parent and an OCO otherwise.
pub fn to_alpaca_advanced_order(orders: &[NativeOrder], venue: &str, extended_hours: bool) -> (r:
    Result<AdvancedOrder, OrderRejection>)
    requires
        all_wf(orders@),
    ensures
        advanced_result_view(r) == spec_advanced(views_of(orders@), venue@, extended_hours),
{
    let ghost v = views_of(orders@);
    if orders.len() == 3 {
        let request = to_alpaca_bracket_order(orders, venue, extended_hours)?;
        let r = AdvancedOrder {
            request,
            primary: 0,
            children: vec![1, 2],
            class: AlpacaOrderClass::Bracket,
        };
        assert(r.children@.map_values(|i: usize| i as int) =~= seq![1int, 2int]);
        return Ok(r);
    }
    if orders.len() != 2 {
        return Err(OrderRejection::ListSize);
    }
    assert(v[0] == orders@[0]@);
    if orders[0].contingency_type == Some(ContingencyType::Oto) {
        let r = to_alpaca_oto_order(orders, venue, extended_hours)?;
        assert(r.children@.map_values(|i: usize| i as int) =~= seq![1int]);
        return Ok(r);
    }
    let r = to_alpaca_oco_order(orders, venue, extended_hours)?;
    assert(r.children@.map_values(|i: usize| i as int) =~= seq![1 - r.primary as int]);
    Ok(r)
}

} // verus!
