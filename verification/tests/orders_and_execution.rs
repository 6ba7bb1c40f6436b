use nautilus_alpaca::common::info::InfoValue;
use nautilus_alpaca::decimal::ExactDecimal;
use nautilus_alpaca::execution::account::{
    account_balance, snapshot_from_amounts, AlpacaAccount, BalanceError, BalanceField, MoneyAmount,
};
use nautilus_alpaca::execution::contexts::{ends_order, OrderContexts};
use nautilus_alpaca::execution::commands::{
    bind_leg_children, denied_list_orders, first_reconcile_delay_ms, reconcile_delay_ms,
    reconcile_step, replace_order_request, resolve_venue_order_id, submission_follow_up,
    submission_outcome, ModifyRejection, ReconcileAction, SubmitFollowUp, SubmitOutcome,
};
use nautilus_alpaca::http::error::AlpacaHttpError;
use nautilus_alpaca::execution::model::{
    ContingencyType, NativeOrder, OrderSide, OrderStatus, OrderType, TimeInForce,
};
use nautilus_alpaca::execution::orders::{
    to_alpaca_advanced_order, to_alpaca_bracket_order, to_alpaca_order,
    validate_equity_order_price, validate_equity_quantity, validate_fractional_time_in_force,
    OrderRejection, PriceField,
};
use nautilus_alpaca::execution::reports::{missing_fill_order_ids, parse_order_status, ReportError};
use nautilus_alpaca::execution::trade_updates::{
    handle_trade_update, next_reconnect_delay, AccountRefreshGate, FillDeduplicator,
    TradeUpdateAction, TradeUpdateError, TradeUpdateFacts,
};
use nautilus_alpaca::http::models::{
    AlpacaOrderClass, AlpacaOrderStatus, AlpacaOrderType, AlpacaTimeInForce,
};
use nautilus_alpaca::websocket::trading::AlpacaTradeEvent;

fn dec(digits: u128, scale: u32) -> ExactDecimal {
    ExactDecimal::from_parts(false, digits, scale)
}

fn order(order_type: OrderType, side: OrderSide, qty: ExactDecimal, tif: TimeInForce) -> NativeOrder {
    NativeOrder {
        symbol: "AAPL".to_string(),
        venue: "ALPACA".to_string(),
        client_order_id: "O-1".to_string(),
        side,
        order_type,
        time_in_force: tif,
        quantity: qty,
        price: None,
        trigger_price: None,
        trailing_offset: None,
        trailing_offset_type: None,
        is_quote_quantity: false,
        is_post_only: false,
        is_reduce_only: false,
        has_display_qty: false,
        contingency_type: None,
        parent_order_id: None,
    }
}

fn same(a: ExactDecimal, b: ExactDecimal) -> bool {
    a.same_value(&b)
}

#[test]
fn test_translates_native_limit_order_without_float_conversion() {
    let mut o = order(OrderType::Limit, OrderSide::Buy, dec(12, 0), TimeInForce::Day);
    o.price = Some(dec(18_725, 2));
    let request = to_alpaca_order(&o, "ALPACA", false).unwrap();
    assert_eq!(request.symbol, "AAPL");
    assert!(same(request.qty, dec(12, 0)));
    assert_eq!(request.limit_price, Some(dec(18_725, 2)));
    assert_eq!(request.order_type, AlpacaOrderType::Limit);
    assert_eq!(request.time_in_force, AlpacaTimeInForce::Day);
    assert_eq!(request.client_order_id, "O-1");
}

#[test]
fn test_translates_stop_limit_prices() {
    let mut o = order(OrderType::StopLimit, OrderSide::Sell, dec(3, 0), TimeInForce::Gtc);
    o.price = Some(dec(17_950, 2));
    o.trigger_price = Some(dec(18_000, 2));
    let request = to_alpaca_order(&o, "ALPACA", false).unwrap();
    assert_eq!(request.order_type, AlpacaOrderType::StopLimit);
    assert_eq!(request.limit_price, Some(dec(17_950, 2)));
    assert_eq!(request.stop_price, Some(dec(18_000, 2)));
}

#[test]
fn test_translates_native_bracket_as_one_atomic_alpaca_request() {
    let mut entry = order(OrderType::Market, OrderSide::Buy, dec(5, 0), TimeInForce::Gtc);
    entry.client_order_id = "ENTRY-1".to_string();
    entry.contingency_type = Some(ContingencyType::Oto);
    let mut stop = order(OrderType::StopLimit, OrderSide::Sell, dec(5, 0), TimeInForce::Gtc);
    stop.client_order_id = "STOP-1".to_string();
    stop.price = Some(dec(17_850, 2));
    stop.trigger_price = Some(dec(17_900, 2));
    stop.is_reduce_only = true;
    stop.contingency_type = Some(ContingencyType::Ouo);
    stop.parent_order_id = Some("ENTRY-1".to_string());
    let mut profit = order(OrderType::Limit, OrderSide::Sell, dec(5, 0), TimeInForce::Gtc);
    profit.client_order_id = "PROFIT-1".to_string();
    profit.price = Some(dec(19_500, 2));
    profit.is_reduce_only = true;
    profit.is_post_only = true;
    profit.contingency_type = Some(ContingencyType::Ouo);
    profit.parent_order_id = Some("ENTRY-1".to_string());

    let request = to_alpaca_bracket_order(&[entry, stop, profit], "ALPACA", false).unwrap();
    assert_eq!(request.order_class, Some(AlpacaOrderClass::Bracket));
    assert_eq!(request.take_profit.unwrap().limit_price, dec(19_500, 2));
    assert_eq!(request.stop_loss.unwrap().stop_price, dec(17_900, 2));
    assert_eq!(request.stop_loss.unwrap().limit_price, Some(dec(17_850, 2)));
    assert_eq!(request.client_order_id, "ENTRY-1");
}

#[test]
fn test_translates_native_oto_stop_as_one_atomic_request() {
    let mut parent = order(OrderType::Limit, OrderSide::Buy, dec(2, 0), TimeInForce::Day);
    parent.client_order_id = "ENTRY-OTO".to_string();
    parent.price = Some(dec(18_500, 2));
    parent.contingency_type = Some(ContingencyType::Oto);
    let mut child = order(OrderType::StopMarket, OrderSide::Sell, dec(2, 0), TimeInForce::Day);
    child.client_order_id = "STOP-OTO".to_string();
    child.trigger_price = Some(dec(17_900, 2));
    child.is_reduce_only = true;
    child.parent_order_id = Some("ENTRY-OTO".to_string());

    let translation = to_alpaca_advanced_order(&[parent, child], "ALPACA", false).unwrap();
    assert_eq!(translation.primary, 0);
    assert_eq!(translation.request.order_class, Some(AlpacaOrderClass::Oto));
    assert_eq!(translation.request.stop_loss.unwrap().stop_price, dec(17_900, 2));
    assert!(translation.request.take_profit.is_none());
}

#[test]
fn test_translates_native_oco_with_take_profit_as_primary() {
    let mut stop = order(OrderType::StopMarket, OrderSide::Sell, dec(2, 0), TimeInForce::Gtc);
    stop.client_order_id = "STOP-OCO".to_string();
    stop.trigger_price = Some(dec(17_900, 2));
    stop.is_reduce_only = true;
    stop.contingency_type = Some(ContingencyType::Oco);
    let mut profit = order(OrderType::Limit, OrderSide::Sell, dec(2, 0), TimeInForce::Gtc);
    profit.client_order_id = "PROFIT-OCO".to_string();
    profit.price = Some(dec(19_500, 2));
    profit.is_reduce_only = true;
    profit.contingency_type = Some(ContingencyType::Oco);

    let translation = to_alpaca_advanced_order(&[stop, profit], "ALPACA", false).unwrap();
    assert_eq!(translation.primary, 1);
    assert_eq!(translation.children, vec![0]);
    assert_eq!(translation.request.client_order_id, "PROFIT-OCO");
    assert_eq!(translation.request.order_class, Some(AlpacaOrderClass::Oco));
    assert_eq!(translation.request.take_profit.unwrap().limit_price, dec(19_500, 2));
    assert!(translation.request.limit_price.is_none());
}

#[test]
fn test_rejects_wrong_venue_and_unsupported_market_to_limit() {
    let mut wrong_venue = order(OrderType::Market, OrderSide::Buy, dec(1, 0), TimeInForce::Gtc);
    wrong_venue.venue = "NASDAQ".to_string();
    let unsupported = order(OrderType::MarketToLimit, OrderSide::Buy, dec(1, 0), TimeInForce::Gtc);
    assert_eq!(to_alpaca_order(&wrong_venue, "ALPACA", false).unwrap_err(), OrderRejection::WrongVenue);
    assert_eq!(
        to_alpaca_order(&unsupported, "ALPACA", false).unwrap_err(),
        OrderRejection::UnsupportedOrderType(OrderType::MarketToLimit)
    );
}

#[test]
fn test_extended_hours_requires_day_or_gtc_limit() {
    let market = order(OrderType::Market, OrderSide::Buy, dec(1, 0), TimeInForce::Day);
    assert_eq!(
        to_alpaca_order(&market, "ALPACA", true).unwrap_err(),
        OrderRejection::ExtendedHoursRequiresLimit
    );
    let mut limit = order(OrderType::Limit, OrderSide::Buy, dec(1, 0), TimeInForce::Gtc);
    limit.price = Some(dec(10_000, 2));
    assert!(to_alpaca_order(&limit, "ALPACA", true).unwrap().extended_hours);
}

#[test]
fn test_fractional_orders_require_day_time_in_force() {
    let mut gtc = order(OrderType::Limit, OrderSide::Buy, dec(125, 3), TimeInForce::Gtc);
    gtc.price = Some(dec(18_725, 2));
    let mut day = gtc.clone();
    day.time_in_force = TimeInForce::Day;
    assert_eq!(to_alpaca_order(&gtc, "ALPACA", false).unwrap_err(), OrderRejection::FractionalRequiresDay);
    assert_eq!(to_alpaca_order(&day, "ALPACA", false).unwrap().qty, dec(125, 3));
}

#[test]
fn test_fractional_replacement_validation_requires_day() {
    assert!(validate_fractional_time_in_force(dec(125, 3), TimeInForce::Gtc).is_err());
    assert!(validate_fractional_time_in_force(dec(125, 3), TimeInForce::Day).is_ok());
    assert!(validate_fractional_time_in_force(dec(2, 0), TimeInForce::Gtc).is_ok());
}

#[test]
fn test_equity_price_precision_matches_alpaca_sub_penny_rules() {
    let cases = [
        (dec(18_725, 2), true),
        (dec(187_251, 3), false),
        (dec(1_234, 4), true),
        (dec(12_345, 5), false),
        (dec(0, 0), false),
        (dec(1_872_500, 4), true),
    ];
    for (price, valid) in cases {
        let result = validate_equity_order_price(PriceField::LimitPrice, Some(price));
        assert_eq!(result.is_ok(), valid);
    }
    assert!(validate_equity_order_price(PriceField::StopPrice, None).is_ok());
}

#[test]
fn test_order_translation_rejects_sub_penny_limit_before_network() {
    let mut o = order(OrderType::Limit, OrderSide::Buy, dec(1, 0), TimeInForce::Day);
    o.price = Some(dec(187_251, 3));
    assert_eq!(
        to_alpaca_order(&o, "ALPACA", false).unwrap_err(),
        OrderRejection::PriceTooPrecise { field: PriceField::LimitPrice, max_scale: 2 }
    );
}

#[test]
fn test_equity_quantity_accepts_at_most_nine_decimals() {
    assert!(validate_equity_quantity(dec(1, 9)).is_ok());
    assert_eq!(validate_equity_quantity(dec(1, 10)).unwrap_err(), OrderRejection::QuantityTooPrecise);
    assert_eq!(validate_equity_quantity(dec(0, 0)).unwrap_err(), OrderRejection::NonPositiveQuantity);
}

#[test]
fn test_account_snapshot_preserves_alpaca_risk_metadata() {
    let account = AlpacaAccount {
        status: "ACTIVE".to_string(),
        currency: "USD".to_string(),
        cash: dec(10_000_125, 3),
        buying_power: dec(2_000_025, 2),
        equity: dec(12_500_125, 3),
        portfolio_value: dec(12_500_125, 3),
        long_market_value: dec(2_500, 0),
        short_market_value: dec(0, 0),
        pattern_day_trader: Some(true),
        trading_blocked: false,
        transfers_blocked: false,
        account_blocked: false,
        trade_suspended_by_user: false,
        shorting_enabled: true,
        multiplier: dec(2, 0),
        regt_buying_power: Some(dec(2_000_025, 2)),
        non_marginable_buying_power: Some(dec(10_000, 0)),
        initial_margin: Some(dec(1_250, 0)),
        maintenance_margin: Some(dec(750, 0)),
        last_equity: Some(dec(12_000, 0)),
        last_maintenance_margin: Some(dec(700, 0)),
        sma: Some(dec(0, 0)),
        accrued_fees: Some(dec(125, 2)),
        pending_transfer_in: Some(dec(500, 0)),
        options_buying_power: Some(dec(8_000, 0)),
        options_approved_level: Some(2),
        options_trading_level: Some(1),
        crypto_status: Some("ACTIVE".to_string()),
    };

    let snapshot = account_balance(&account).unwrap();
    let get = |key: &str| snapshot.info.iter().find(|(k, _)| k == key).map(|(_, v)| v.clone());

    assert_eq!(snapshot.currency, "USD");
    // The balance is money at the currency's two decimals, rounded half to even; the venue's
    // own figures keep their precision in the metadata.
    assert_eq!(snapshot.total, dec(1_250_012, 2));
    assert_eq!(snapshot.free, dec(1_000_012, 2));
    assert_eq!(snapshot.locked, dec(250_000, 2));
    assert!(matches!(get("buying_power"), Some(InfoValue::Decimal(d)) if d == dec(2_000_025, 2)));
    assert!(matches!(get("portfolio_value"), Some(InfoValue::Decimal(d)) if d == dec(12_500_125, 3)));
    assert!(matches!(get("status"), Some(InfoValue::Text(s)) if s == "ACTIVE"));
    assert!(matches!(get("pattern_day_trader"), Some(InfoValue::Flag(true))));
    assert!(matches!(get("shorting_enabled"), Some(InfoValue::Flag(true))));
    assert!(matches!(get("accrued_fees"), Some(InfoValue::Decimal(d)) if d == dec(125, 2)));
    assert!(matches!(get("options_trading_level"), Some(InfoValue::Level(1))));
    assert!(matches!(get("crypto_status"), Some(InfoValue::Text(s)) if s == "ACTIVE"));
    assert!(get("account_number").is_none());
}

#[test]
fn test_account_balance_refusals() {
    let account = AlpacaAccount {
        status: "ACTIVE".to_string(),
        currency: "NOT-A-CURRENCY".to_string(),
        cash: dec(100, 0),
        buying_power: dec(100, 0),
        equity: dec(150, 0),
        portfolio_value: dec(150, 0),
        long_market_value: dec(50, 0),
        short_market_value: dec(0, 0),
        pattern_day_trader: None,
        trading_blocked: false,
        transfers_blocked: false,
        account_blocked: false,
        trade_suspended_by_user: false,
        shorting_enabled: false,
        multiplier: dec(1, 0),
        regt_buying_power: None,
        non_marginable_buying_power: None,
        initial_margin: None,
        maintenance_margin: None,
        last_equity: None,
        last_maintenance_margin: None,
        sma: None,
        accrued_fees: None,
        pending_transfer_in: None,
        options_buying_power: None,
        options_approved_level: None,
        options_trading_level: None,
        crypto_status: None,
    };
    assert!(matches!(account_balance(&account), Err(BalanceError::UnknownCurrency)));

    let amount = |raw: i128, mantissa: i128| MoneyAmount { raw, mantissa, scale: 2 };
    assert!(matches!(
        snapshot_from_amounts(&account, None, Some(amount(1, 1)), Some(amount(1, 1))),
        Err(BalanceError::NotMoney(BalanceField::Total))
    ));
    assert!(matches!(
        snapshot_from_amounts(&account, Some(amount(2, 2)), None, None),
        Err(BalanceError::NotMoney(BalanceField::Free))
    ));
    assert!(matches!(
        snapshot_from_amounts(&account, Some(amount(2, 2)), Some(amount(1, 1)), None),
        Err(BalanceError::NotMoney(BalanceField::Locked))
    ));
    assert!(matches!(
        snapshot_from_amounts(&account, Some(amount(3, 3)), Some(amount(1, 1)), Some(amount(1, 1))),
        Err(BalanceError::Unbalanced)
    ));
    let snapshot =
        snapshot_from_amounts(&account, Some(amount(15_000, 15_000)), Some(amount(10_000, 10_000)), Some(amount(5_000, 5_000)))
            .unwrap();
    assert_eq!(snapshot.total, dec(15_000, 2));
    assert_eq!(snapshot.free, dec(10_000, 2));
    assert_eq!(snapshot.locked, dec(5_000, 2));
}

#[test]
fn test_reconciliation_order_status_mapping() {
    let cases = [
        (AlpacaOrderStatus::Accepted, dec(0, 0), OrderStatus::Accepted),
        (AlpacaOrderStatus::PartiallyFilled, dec(1, 0), OrderStatus::PartiallyFilled),
        (AlpacaOrderStatus::PendingReplace, dec(0, 0), OrderStatus::PendingUpdate),
        (AlpacaOrderStatus::Calculated, dec(2, 0), OrderStatus::Filled),
        (AlpacaOrderStatus::DoneForDay, dec(1, 0), OrderStatus::Canceled),
    ];
    for (alpaca, filled, expected) in cases {
        assert_eq!(parse_order_status(alpaca, dec(2, 0), filled).unwrap(), expected);
    }
}

#[test]
fn test_unknown_reconciliation_status_is_not_silently_accepted() {
    assert_eq!(
        parse_order_status(AlpacaOrderStatus::Unknown, dec(1, 0), dec(0, 0)).unwrap_err(),
        ReportError::UnknownOrderStatus
    );
}

#[test]
fn test_fill_reconciliation_fetches_each_missing_order_only_once() {
    let fills = vec!["known-order".to_string(), "missing-order".to_string(), "missing-order".to_string()];
    let known = vec!["known-order".to_string()];
    assert_eq!(missing_fill_order_ids(&fills, &known), vec!["missing-order".to_string()]);
}

fn trade_update(event: AlpacaTradeEvent) -> TradeUpdateFacts {
    TradeUpdateFacts {
        event,
        execution_id: None,
        price: None,
        qty: None,
        venue_order_id: "venue-order-id".to_string(),
        order_qty: dec(1, 0),
        limit_price: Some(dec(18_500, 2)),
        stop_price: None,
        timestamp: None,
        filled_at: None,
        updated_at: 1_704_067_200_000_000_000,
    }
}

#[test]
fn test_replaced_trade_update_emits_new_venue_identity_and_terms() {
    let mut fills = FillDeduplicator::new();
    // 2024-01-01T00:00:02Z
    let timestamp: i64 = 1_704_067_202_000_000_000;
    let update = TradeUpdateFacts {
        venue_order_id: "replacement-order-id".to_string(),
        order_qty: dec(2, 0),
        limit_price: Some(dec(18_750, 2)),
        stop_price: None,
        timestamp: Some(timestamp),
        updated_at: timestamp,
        ..trade_update(AlpacaTradeEvent::Replaced)
    };
    let outcome = handle_trade_update(&update, true, true, &mut fills).unwrap();
    assert!(outcome.refresh);
    assert_eq!(outcome.venue_order_id, "replacement-order-id");
    assert_eq!(outcome.ts_event, timestamp);
    match outcome.action {
        TradeUpdateAction::Updated { quantity, limit_price, stop_price } => {
            assert_eq!(quantity, dec(2, 0));
            assert_eq!(limit_price, Some(dec(18_750, 2)));
            assert_eq!(stop_price, None);
        },
        other => panic!("Expected an order update, got {other:?}"),
    }
}

#[test]
fn test_fills_are_emitted_once_and_need_their_terms() {
    let mut fills = FillDeduplicator::new();
    let fill = TradeUpdateFacts {
        execution_id: Some("exec-1".to_string()),
        price: Some(dec(18_525, 2)),
        qty: Some(dec(1, 0)),
        filled_at: Some(1_704_067_201_000_000_000),
        ..trade_update(AlpacaTradeEvent::Fill)
    };
    let first = handle_trade_update(&fill, true, true, &mut fills).unwrap();
    match &first.action {
        TradeUpdateAction::Filled { execution_id, last_qty, last_px, closes_order } => {
            assert_eq!(execution_id, "exec-1");
            assert_eq!(*last_qty, dec(1, 0));
            assert_eq!(*last_px, dec(18_525, 2));
            assert!(*closes_order);
        },
        other => panic!("Expected a fill, got {other:?}"),
    }
    assert_eq!(first.venue_order_id, "venue-order-id");
    // Without its own timestamp the update is dated by the order's fill time.
    assert_eq!(first.ts_event, 1_704_067_201_000_000_000);
    assert!(first.refresh);
    let replay = handle_trade_update(&fill, true, true, &mut fills).unwrap();
    assert!(matches!(replay.action, TradeUpdateAction::DuplicateFill));
    assert!(!replay.refresh);
    assert_eq!(fills.len(), 1);

    let partial = TradeUpdateFacts {
        execution_id: Some("exec-3".to_string()),
        price: Some(dec(18_530, 2)),
        qty: Some(dec(5, 1)),
        ..trade_update(AlpacaTradeEvent::PartialFill)
    };
    let outcome = handle_trade_update(&partial, true, true, &mut fills).unwrap();
    assert!(matches!(outcome.action, TradeUpdateAction::Filled { closes_order: false, .. }));
    // Without a timestamp or fill time the update is dated by the order's last update.
    assert_eq!(outcome.ts_event, 1_704_067_200_000_000_000);

    let no_price = TradeUpdateFacts { price: None, execution_id: Some("exec-2".to_string()), ..fill };
    assert_eq!(
        handle_trade_update(&no_price, true, true, &mut fills).unwrap_err(),
        TradeUpdateError::MissingPrice
    );
    let missing = trade_update(AlpacaTradeEvent::Canceled);
    assert_eq!(
        handle_trade_update(&missing, false, false, &mut fills).unwrap_err(),
        TradeUpdateError::MissingContext
    );
    let accepted = handle_trade_update(&trade_update(AlpacaTradeEvent::New), true, false, &mut fills).unwrap();
    assert!(matches!(accepted.action, TradeUpdateAction::Accepted));
    let known = handle_trade_update(&trade_update(AlpacaTradeEvent::New), true, true, &mut fills).unwrap();
    assert!(matches!(known.action, TradeUpdateAction::AlreadyAccepted));
}

#[test]
fn test_fill_memory_forgets_oldest_beyond_capacity() {
    let mut fills = FillDeduplicator::new();
    for i in 0..10_001u32 {
        assert!(fills.insert(format!("exec-{i}")));
    }
    assert_eq!(fills.len(), 10_000);
    assert!(!fills.contains("exec-0"));
    assert!(fills.contains("exec-1"));
    assert!(fills.contains("exec-10000"));
    assert!(!fills.insert("exec-10000".to_string()));
}

#[test]
fn test_account_refresh_requests_are_coalesced() {
    let mut gate = AccountRefreshGate::new();
    assert!(gate.request());
    assert!(!gate.request());
    assert!(!gate.request());
    assert!(gate.finished());
    assert!(!gate.finished());
    assert!(gate.request());
}

#[test]
fn test_reconnect_delay_doubles_up_to_thirty_seconds() {
    assert_eq!(next_reconnect_delay(500), 1_000);
    assert_eq!(next_reconnect_delay(1), 2);
    assert_eq!(next_reconnect_delay(16_000), 30_000);
    assert_eq!(next_reconnect_delay(30_000), 30_000);
}

#[test]
fn test_modify_requests_and_venue_ids() {
    assert_eq!(
        resolve_venue_order_id(None, Some("V-1".to_string())),
        Some("V-1".to_string())
    );
    assert_eq!(
        resolve_venue_order_id(Some("V-2".to_string()), Some("V-1".to_string())),
        Some("V-2".to_string())
    );
    assert!(matches!(replace_order_request(None, None, None), Err(ModifyRejection::NothingToModify)));
    let request = replace_order_request(Some((dec(2, 0), TimeInForce::Gtc)), Some(dec(18_750, 2)), None).unwrap();
    assert_eq!(request.qty, Some(dec(2, 0)));
    assert_eq!(request.limit_price, Some(dec(18_750, 2)));
    assert_eq!(request.stop_price, None);
    assert!(matches!(
        replace_order_request(Some((dec(5, 1), TimeInForce::Gtc)), None, None),
        Err(ModifyRejection::Invalid(OrderRejection::FractionalRequiresDay))
    ));
}

#[test]
fn test_leg_binding_pairs_legs_with_children() {
    let legs = vec![AlpacaOrderType::Limit, AlpacaOrderType::Stop];
    let children = vec![OrderType::StopMarket, OrderType::Limit];
    assert_eq!(bind_leg_children(&legs, &children), vec![Some(1), Some(0)]);
}

#[test]
fn test_submission_follow_ups_and_reconciliation() {
    assert_eq!(submission_follow_up(SubmitOutcome::Accepted { has_legs: false }, false), SubmitFollowUp::AwaitUpdates);
    assert_eq!(submission_follow_up(SubmitOutcome::Accepted { has_legs: false }, true), SubmitFollowUp::FetchLegs);
    assert_eq!(submission_follow_up(SubmitOutcome::Accepted { has_legs: true }, true), SubmitFollowUp::BindLegs);
    assert_eq!(submission_follow_up(SubmitOutcome::Ambiguous, true), SubmitFollowUp::Reconcile);
    assert_eq!(submission_follow_up(SubmitOutcome::Failed, false), SubmitFollowUp::Reject);
    assert_eq!(first_reconcile_delay_ms(), 250);
    assert_eq!(reconcile_delay_ms(3), 750);
    assert_eq!(reconcile_step(1, false), ReconcileAction::RetryAfter(500));
    assert_eq!(reconcile_step(2, false), ReconcileAction::RetryAfter(750));
    assert_eq!(reconcile_step(3, false), ReconcileAction::GiveUp);
    assert_eq!(reconcile_step(2, true), ReconcileAction::Report);
}

#[test]
fn test_http_errors_decide_the_submission_outcome() {
    assert_eq!(submission_outcome(&Ok(true)), SubmitOutcome::Accepted { has_legs: true });
    assert_eq!(submission_outcome(&Ok(false)), SubmitOutcome::Accepted { has_legs: false });
    let timeout = Err(AlpacaHttpError::Transport("timed out".to_string()));
    assert_eq!(submission_outcome(&timeout), SubmitOutcome::Ambiguous);
    let unavailable = Err(AlpacaHttpError::Http { status: 503, message: "unavailable".to_string() });
    assert_eq!(submission_outcome(&unavailable), SubmitOutcome::Ambiguous);
    let refused = Err(AlpacaHttpError::Http { status: 422, message: "insufficient buying power".to_string() });
    assert_eq!(submission_outcome(&refused), SubmitOutcome::Failed);
    assert_eq!(submission_follow_up(submission_outcome(&refused), true), SubmitFollowUp::Reject);
    let limited = Err(AlpacaHttpError::RateLimited { retry_after_secs: Some(1) });
    assert_eq!(submission_outcome(&limited), SubmitOutcome::Failed);
    let denied = Err(AlpacaHttpError::Authentication("forbidden".to_string()));
    assert_eq!(submission_outcome(&denied), SubmitOutcome::Failed);
}

#[test]
fn test_untranslatable_order_list_denies_every_order() {
    let failed: Result<(), &str> = Err("unsupported list");
    assert_eq!(denied_list_orders(&failed, 3), vec![0, 1, 2]);
    let translated: Result<(), &str> = Ok(());
    assert!(denied_list_orders(&translated, 3).is_empty());
}

#[test]
fn test_order_contexts_live_until_the_order_is_done() {
    let mut contexts: OrderContexts<u32> = OrderContexts::new();
    contexts.insert("O-1".to_string(), 1);
    contexts.insert("O-2".to_string(), 2);
    contexts.insert("O-1".to_string(), 10);
    assert_eq!(contexts.get("O-1"), Some(&10));
    assert!(contexts.contains("O-2"));
    assert!(!contexts.contains("O-3"));

    let partial = TradeUpdateAction::Filled {
        execution_id: "e-1".to_string(),
        last_qty: dec(1, 0),
        last_px: dec(100, 0),
        closes_order: false,
    };
    contexts.apply_trade_update("O-1", &partial);
    assert!(contexts.contains("O-1"));
    let updated = TradeUpdateAction::Updated { quantity: dec(2, 0), limit_price: None, stop_price: None };
    assert!(!ends_order(&updated));
    contexts.apply_trade_update("O-1", &updated);
    assert!(contexts.contains("O-1"));
    contexts.apply_trade_update("O-1", &TradeUpdateAction::Canceled);
    assert!(!contexts.contains("O-1"));
    assert_eq!(contexts.get("O-1"), None);
    contexts.remove("O-3");
    assert_eq!(contexts.get("O-2"), Some(&2));
    let full = TradeUpdateAction::Filled {
        execution_id: "e-2".to_string(),
        last_qty: dec(1, 0),
        last_px: dec(100, 0),
        closes_order: true,
    };
    contexts.apply_trade_update("O-2", &full);
    assert!(!contexts.contains("O-2"));
}
