use vstd::prelude::*;

use crate::decimal::ExactDecimal;

verus! {

#[derive(Clone, Copy, Debug, PartialEq, Eq, Structural)]
pub enum AlpacaAssetClass {
    UsEquity,
    Crypto,
    Unknown,
}

#[derive(Clone, Copy, Debug, PartialEq, Eq, Structural)]
pub enum AlpacaAssetStatus {
    Active,
    Inactive,
    Unknown,
}

#[derive(Clone, Copy, Debug, PartialEq, Eq, Structural)]
pub enum AlpacaOrderSide {
    Buy,
    Sell,
}

#[derive(Clone, Copy, Debug, PartialEq, Eq, Structural)]
pub enum AlpacaOrderType {
    Market,
    Limit,
    Stop,
    StopLimit,
    TrailingStop,
}

#[derive(Clone, Copy, Debug, PartialEq, Eq, Structural)]
pub enum AlpacaTimeInForce {
    Day,
    Gtc,
    Opg,
    Cls,
    Ioc,
    Fok,
}

#[derive(Clone, Copy, Debug, PartialEq, Eq, Structural)]
pub enum AlpacaOrderClass {
    Bracket,
    Oco,
    Oto,
}

#[derive(Clone, Copy, Debug, PartialEq, Eq, Structural)]
pub enum AlpacaOrderStatus {
    New,
    PartiallyFilled,
    Filled,
    DoneForDay,
    Canceled,
    Expired,
    Replaced,
    PendingCancel,
    PendingReplace,
    PendingNew,
    Accepted,
    AcceptedForBidding,
    Stopped,
    Rejected,
    Suspended,
    Calculated,
    Held,
    Unknown,
}

/// An asset of the venue's catalogue, as far as instrument parsing reads it.
#[derive(Clone, Debug)]
pub struct AlpacaAsset {
    pub id: String,
    pub asset_class: AlpacaAssetClass,
    pub exchange: String,
    pub symbol: String,
    pub name: String,
    pub status: AlpacaAssetStatus,
    pub tradable: bool,
    pub marginable: bool,
    pub shortable: bool,
    pub borrow_status: Option<String>,
    pub easy_to_borrow: Option<bool>,
    pub fractionable: bool,
    pub cusip: Option<String>,
    pub maintenance_margin_requirement: Option<ExactDecimal>,
    pub margin_requirement_long: Option<ExactDecimal>,
    pub margin_requirement_short: Option<ExactDecimal>,
    pub min_order_size: Option<ExactDecimal>,
    pub min_trade_increment: Option<ExactDecimal>,
    pub price_increment: Option<ExactDecimal>,
    pub attributes: Vec<String>,
}

/// One entry of the most-active screen.
#[derive(Clone, Debug)]
pub struct AlpacaMostActive {
    pub symbol: String,
    pub volume: u64,
    pub trade_count: u64,
}

/// One image attached to a news article.
#[derive(Clone, Debug)]
pub struct AlpacaNewsImage {
    pub size: String,
    pub url: String,
}

/// One US equity trading session, including shortened holiday sessions.
#[derive(Clone, Debug)]
pub struct AlpacaCalendarDay {
    pub date: String,
    pub open: String,
    pub close: String,
    pub session_open: Option<String>,
    pub session_close: Option<String>,
    pub settlement_date: Option<String>,
}

/// Take-profit leg of an advanced order.
#[derive(Clone, Copy, Debug, PartialEq, Eq, Structural)]
pub struct AlpacaTakeProfitRequest {
    pub limit_price: ExactDecimal,
}

/// Stop-loss leg of an advanced order.
#[derive(Clone, Copy, Debug, PartialEq, Eq, Structural)]
pub struct AlpacaStopLossRequest {
    pub stop_price: ExactDecimal,
    pub limit_price: Option<ExactDecimal>,
}

/// The body of `POST /v2/orders`.
#[derive(Clone, Debug)]
pub struct AlpacaOrderRequest {
    pub symbol: String,
    pub qty: ExactDecimal,
    pub side: AlpacaOrderSide,
    pub order_type: AlpacaOrderType,
    pub time_in_force: AlpacaTimeInForce,
    pub client_order_id: String,
    pub limit_price: Option<ExactDecimal>,
    pub stop_price: Option<ExactDecimal>,
    pub trail_price: Option<ExactDecimal>,
    pub trail_percent: Option<ExactDecimal>,
    pub extended_hours: bool,
    pub order_class: Option<AlpacaOrderClass>,
    pub take_profit: Option<AlpacaTakeProfitRequest>,
    pub stop_loss: Option<AlpacaStopLossRequest>,
}

/// Mathematical view of an order request, with strings as character sequences.
pub struct OrderRequestView {
    pub symbol: Seq<char>,
    pub qty: ExactDecimal,
    pub side: AlpacaOrderSide,
    pub order_type: AlpacaOrderType,
    pub time_in_force: AlpacaTimeInForce,
    pub client_order_id: Seq<char>,
    pub limit_price: Option<ExactDecimal>,
    pub stop_price: Option<ExactDecimal>,
    pub trail_price: Option<ExactDecimal>,
    pub trail_percent: Option<ExactDecimal>,
    pub extended_hours: bool,
    pub order_class: Option<AlpacaOrderClass>,
    pub take_profit: Option<AlpacaTakeProfitRequest>,
    pub stop_loss: Option<AlpacaStopLossRequest>,
}

impl View for AlpacaOrderRequest {
    type V = OrderRequestView;

    open spec fn view(&self) -> OrderRequestView {
        OrderRequestView {
            symbol: self.symbol@,
            qty: self.qty,
            side: self.side,
            order_type: self.order_type,
            time_in_force: self.time_in_force,
            client_order_id: self.client_order_id@,
            limit_price: self.limit_price,
            stop_price: self.stop_price,
            trail_price: self.trail_price,
            trail_percent: self.trail_percent,
            extended_hours: self.extended_hours,
            order_class: self.order_class,
            take_profit: self.take_profit,
            stop_loss: self.stop_loss,
        }
    }
}

/// Mutable fields accepted by the replace-order endpoint.
#[derive(Clone, Copy, Debug, PartialEq, Eq, Structural)]
pub struct AlpacaReplaceOrderRequest {
    pub qty: Option<ExactDecimal>,
    pub limit_price: Option<ExactDecimal>,
    pub stop_price: Option<ExactDecimal>,
}

} // verus!
