use vstd::prelude::*;

use crate::decimal::ExactDecimal;

verus! {

/// Side of a trading-platform order.
#[derive(Clone, Copy, Debug, PartialEq, Eq, Structural)]
pub enum OrderSide {
    Buy,
    Sell,
}

/// Order type of a trading-platform order.
#[derive(Clone, Copy, Debug, PartialEq, Eq, Structural)]
pub enum OrderType {
    Market,
    Limit,
    StopMarket,
    StopLimit,
    MarketToLimit,
    MarketIfTouched,
    LimitIfTouched,
    TrailingStopMarket,
    TrailingStopLimit,
}

/// Time in force of a trading-platform order.
#[derive(Clone, Copy, Debug, PartialEq, Eq, Structural)]
pub enum TimeInForce {
    Gtc,
    Ioc,
    Fok,
    Gtd,
    Day,
    AtTheOpen,
    AtTheClose,
}

/// Contingency linking the orders of an order list.
#[derive(Clone, Copy, Debug, PartialEq, Eq, Structural)]
pub enum ContingencyType {
    Oco,
    Oto,
    Ouo,
}

/// Unit of a trailing offset.
#[derive(Clone, Copy, Debug, PartialEq, Eq, Structural)]
pub enum TrailingOffsetType {
    Price,
    BasisPoints,
    Ticks,
    PriceTier,
}

/// Lifecycle status of a trading-platform order.
#[derive(Clone, Copy, Debug, PartialEq, Eq, Structural)]
pub enum OrderStatus {
    Initialized,
    Denied,
    Emulated,
    Released,
    Submitted,
    Accepted,
    Rejected,
    Canceled,
    Expired,
    Triggered,
    PendingUpdate,
    PendingCancel,
    PartiallyFilled,
    Filled,
}

/// What the adapter reads of a platform order before routing it to the venue.
///
/// Prices and quantities are exact decimals at the instrument's precision.
#[derive(Clone, Debug)]
pub struct NativeOrder {
    pub symbol: String,
    pub venue: String,
    pub client_order_id: String,
    pub side: OrderSide,
    pub order_type: OrderType,
    pub time_in_force: TimeInForce,
    pub quantity: ExactDecimal,
    pub price: Option<ExactDecimal>,
    pub trigger_price: Option<ExactDecimal>,
    pub trailing_offset: Option<ExactDecimal>,
    pub trailing_offset_type: Option<TrailingOffsetType>,
    pub is_quote_quantity: bool,
    pub is_post_only: bool,
    pub is_reduce_only: bool,
    pub has_display_qty: bool,
    pub contingency_type: Option<ContingencyType>,
    pub parent_order_id: Option<String>,
}

/// Mathematical view of a [`NativeOrder`], with strings as character sequences.
pub struct NativeOrderView {
    pub symbol: Seq<char>,
    pub venue: Seq<char>,
    pub client_order_id: Seq<char>,
    pub side: OrderSide,
    pub order_type: OrderType,
    pub time_in_force: TimeInForce,
    pub quantity: ExactDecimal,
    pub price: Option<ExactDecimal>,
    pub trigger_price: Option<ExactDecimal>,
    pub trailing_offset: Option<ExactDecimal>,
    pub trailing_offset_type: Option<TrailingOffsetType>,
    pub is_quote_quantity: bool,
    pub is_post_only: bool,
    pub is_reduce_only: bool,
    pub has_display_qty: bool,
    pub contingency_type: Option<ContingencyType>,
    pub parent_order_id: Option<Seq<char>>,
}

pub open spec fn opt_view(s: Option<String>) -> Option<Seq<char>> {
    match s {
        Some(v) => Some(v@),
        None => None,
    }
}

impl View for NativeOrder {
    type V = NativeOrderView;

    open spec fn view(&self) -> NativeOrderView {
        NativeOrderView {
            symbol: self.symbol@,
            venue: self.venue@,
            client_order_id: self.client_order_id@,
            side: self.side,
            order_type: self.order_type,
            time_in_force: self.time_in_force,
            quantity: self.quantity,
            price: self.price,
            trigger_price: self.trigger_price,
            trailing_offset: self.trailing_offset,
            trailing_offset_type: self.trailing_offset_type,
            is_quote_quantity: self.is_quote_quantity,
            is_post_only: self.is_post_only,
            is_reduce_only: self.is_reduce_only,
            has_display_qty: self.has_display_qty,
            contingency_type: self.contingency_type,
            parent_order_id: opt_view(self.parent_order_id),
        }
    }
}

impl NativeOrderView {
    /// Every decimal is representable by the venue's decimal type.
    pub open spec fn wf(self) -> bool {
        &&& self.quantity.wf()
        &&& (self.price matches Some(p) ==> p.wf())
        &&& (self.trigger_price matches Some(p) ==> p.wf())
        &&& (self.trailing_offset matches Some(p) ==> p.wf())
    }

    /// The two orders are for the same instrument.
    pub open spec fn same_instrument(self, other: NativeOrderView) -> bool {
        self.symbol == other.symbol && self.venue == other.venue
    }
}

} // verus!
