use nautilus_alpaca::websocket::client::{
    push_subscription_symbol, split_topic_once, subscriptions_from_topics, AlpacaWsAction,
    AlpacaWsSubscription,
};
use nautilus_alpaca::websocket::dispatch::{
    map_status_code, AlpacaDataDispatcher, DispatchError, DispatchPlan, MarketDataKind,
    MarketStatusAction,
};
use nautilus_alpaca::websocket::session::{
    auth_failure_message, make_topic, subscription_topics, AlpacaMarketDataMessage,
    AlpacaSessionEvent, AlpacaSessionState, AlpacaSubscriptionState, SessionFrame,
};
use nautilus_alpaca::websocket::trading::{
    handshake_step, AlpacaAuthorization, AlpacaListening, HandshakeFrame, HandshakePhase,
    HandshakeStep,
};

fn ack(trades: &[&str], quotes: &[&str], statuses: &[&str]) -> AlpacaSubscriptionState {
    let v = |s: &[&str]| s.iter().map(|x| x.to_string()).collect::<Vec<_>>();
    AlpacaSubscriptionState {
        trades: v(trades),
        quotes: v(quotes),
        bars: Vec::new(),
        daily_bars: Vec::new(),
        updated_bars: Vec::new(),
        statuses: v(statuses),
        lulds: Vec::new(),
        corrections: Vec::new(),
        cancel_errors: Vec::new(),
    }
}

fn success(msg: &str) -> AlpacaMarketDataMessage<u32> {
    AlpacaMarketDataMessage::Success { msg: msg.to_string() }
}

fn subscription(trades: &[&str]) -> AlpacaSubscriptionState {
    ack(trades, &[], &[])
}

fn request(action: AlpacaWsAction, trades: &[&str]) -> AlpacaWsSubscription {
    let mut r = AlpacaWsSubscription::empty(action);
    for t in trades {
        push_subscription_symbol(&mut r, "trades", t.to_string());
    }
    r
}

#[test]
fn test_authentication_acknowledgement_resolves_attempt() {
    let mut state = AlpacaSessionState::new();
    let mut result = state.begin_authentication();
    let events = state.on_frame(SessionFrame::Messages(vec![success("authenticated")]));
    assert_eq!(events.len(), 1);
    assert!(matches!(events[0], AlpacaSessionEvent::Authenticated));
    assert!(state.is_authenticated());
    assert_eq!(result.try_recv().unwrap(), Ok(()));
}

#[test]
fn test_complete_subscription_ack_reconciles_pending_state() {
    let mut state = AlpacaSessionState::new();
    state.mark_subscribe("trades", &vec!["AAPL".to_string()]);
    state.mark_subscribe("quotes", &vec!["AMD".to_string()]);
    state.mark_subscribe("statuses", &vec!["MSFT".to_string()]);
    assert_eq!(state.pending_subscribe_topics().len(), 3);

    let events = state.on_frame(SessionFrame::Messages(vec![
        AlpacaMarketDataMessage::<u32>::Subscription(ack(&["AAPL"], &["AMD"], &["MSFT"])),
    ]));

    assert!(matches!(events[0], AlpacaSessionEvent::SubscriptionUpdated(_)));
    assert_eq!(state.confirmed_len(), 3);
    assert!(state.pending_subscribe_topics().is_empty());
}

#[test]
fn test_reconnect_invalidates_auth_and_returns_subscription_intent() {
    let mut state = AlpacaSessionState::new();
    let _receiver = state.begin_authentication();
    state.on_frame(SessionFrame::Messages(vec![success("authenticated")]));
    state.mark_subscribe("trades", &vec!["AAPL".to_string()]);
    state.on_frame(SessionFrame::Messages(vec![AlpacaMarketDataMessage::<u32>::Subscription(
        subscription(&["AAPL"]),
    )]));

    let events = state.on_frame(SessionFrame::<u32>::Reconnected);

    assert!(!state.is_authenticated());
    assert_eq!(events.len(), 1);
    match &events[0] {
        AlpacaSessionEvent::Reconnected { topics_to_replay } => {
            assert_eq!(topics_to_replay, &vec!["trades|AAPL".to_string()])
        }
        _ => panic!("expected a reconnect"),
    }
    assert_eq!(state.pending_subscribe_topics(), vec!["trades|AAPL".to_string()]);
    assert_eq!(state.confirmed_len(), 0);
}

#[test]
fn test_authentication_error_resolves_attempt_with_failure() {
    let mut state = AlpacaSessionState::new();
    let mut result = state.begin_authentication();
    let events = state.on_frame(SessionFrame::Messages(vec![AlpacaMarketDataMessage::<u32>::Error {
        code: 402,
        msg: "auth failed".to_string(),
    }]));
    assert!(matches!(
        &events[0],
        AlpacaSessionEvent::VenueError { code: 402, message } if message == "auth failed"
    ));
    assert_eq!(result.try_recv().unwrap(), Err("Alpaca error 402: auth failed".to_string()));
    assert_eq!(auth_failure_message(402, "auth failed"), "Alpaca error 402: auth failed");
}

#[test]
fn test_mixed_frame_preserves_protocol_event_order() {
    let mut state = AlpacaSessionState::new();
    let events = state.on_frame(SessionFrame::Messages(vec![
        AlpacaMarketDataMessage::Data(1u32),
        AlpacaMarketDataMessage::Error { code: 405, msg: "symbol limit exceeded".to_string() },
        AlpacaMarketDataMessage::Data(2u32),
        AlpacaMarketDataMessage::Data(3u32),
    ]));
    assert_eq!(events.len(), 3);
    assert!(matches!(&events[0], AlpacaSessionEvent::MarketData(m) if m == &vec![1]));
    assert!(matches!(&events[1], AlpacaSessionEvent::VenueError { code: 405, .. }));
    assert!(matches!(&events[2], AlpacaSessionEvent::MarketData(m) if m == &vec![2, 3]));
}

#[test]
fn test_unknown_market_data_message_is_not_silently_discarded() {
    let mut state = AlpacaSessionState::new();
    let events = state.on_frame(SessionFrame::Messages(vec![AlpacaMarketDataMessage::<u32>::Unknown]));
    assert_eq!(events.len(), 1);
    assert!(matches!(
        &events[0],
        AlpacaSessionEvent::ProtocolWarning(m)
            if m == "Alpaca sent an unsupported market-data message type"
    ));
}

#[test]
fn test_replay_groups_topics_into_one_subscription() {
    let requests = subscriptions_from_topics(&vec![
        "quotes|AMD".to_string(),
        "trades|AAPL".to_string(),
        "bars|SPY".to_string(),
        "statuses|MSFT".to_string(),
        "lulds|IONM".to_string(),
        "unknown|X".to_string(),
    ]);
    assert_eq!(requests.len(), 1);
    assert_eq!(requests[0].action, AlpacaWsAction::Subscribe);
    assert_eq!(requests[0].trades, ["AAPL"]);
    assert_eq!(requests[0].quotes, ["AMD"]);
    assert_eq!(requests[0].bars, ["SPY"]);
    assert_eq!(requests[0].statuses, ["MSFT"]);
    assert_eq!(requests[0].lulds, ["IONM"]);
}

#[test]
fn test_topics_round_trip_through_replay() {
    let topic = make_topic("trades", "BRK.B");
    assert_eq!(topic, "trades|BRK.B");
    assert_eq!(split_topic_once(&topic), Some(("trades", "BRK.B")));
    assert_eq!(split_topic_once("no-delimiter"), None);
    let requests = subscriptions_from_topics(&vec![topic]);
    assert_eq!(requests[0].trades, ["BRK.B"]);
    assert_eq!(subscription_topics(&ack(&["AAPL"], &["AMD"], &[])), vec!["trades|AAPL", "quotes|AMD"]);
}

#[test]
fn test_subscription_intent_is_reference_counted() {
    let mut state = AlpacaSessionState::new();
    let subscribe = request(AlpacaWsAction::Subscribe, &["AAPL"]);
    let unsubscribe = request(AlpacaWsAction::Unsubscribe, &["AAPL"]);

    assert!(state.record_subscription_intent(&subscribe).is_some());
    assert!(state.record_subscription_intent(&subscribe).is_none());
    assert_eq!(state.reference_count("trades|AAPL"), 2);
    assert!(state.record_subscription_intent(&unsubscribe).is_none());
    let last = state.record_subscription_intent(&unsubscribe).unwrap();
    assert_eq!(last.action, AlpacaWsAction::Unsubscribe);
    assert_eq!(last.trades, ["AAPL"]);
    assert_eq!(state.reference_count("trades|AAPL"), 0);
    assert_eq!(state.pending_unsubscribe_topics(), ["trades|AAPL"]);
}

#[test]
fn test_subscription_intent_is_retained_while_unauthenticated() {
    let mut state = AlpacaSessionState::new();
    let subscribe = request(AlpacaWsAction::Subscribe, &["AAPL"]);
    let sent = state.record_subscription_intent(&subscribe).unwrap();
    assert_eq!(sent.trades, ["AAPL"]);
    assert!(!state.is_authenticated());
    assert_eq!(state.pending_subscribe_topics(), ["trades|AAPL"]);
}

#[test]
fn test_dispatches_trading_status_without_losing_venue_reason() {
    let cases = [
        ("H", MarketStatusAction::Halt, Some(false), Some(false)),
        ("P", MarketStatusAction::Pause, Some(false), None),
        ("Q", MarketStatusAction::Quoting, Some(false), Some(true)),
        ("T", MarketStatusAction::Trading, Some(true), Some(true)),
    ];
    for (code, expected_action, expected_trading, expected_quoting) in cases {
        let mut dispatcher = AlpacaDataDispatcher::<u32, u32>::new();
        dispatcher.register_instrument("AAPL".to_string(), 7, 4, 9);
        let kind = MarketDataKind::TradingStatus {
            status_code: code.to_string(),
            status_message: "Trading status".to_string(),
            reason_message: "Venue reason".to_string(),
        };
        match dispatcher.dispatch(&kind, "AAPL").unwrap() {
            DispatchPlan::InstrumentStatus { instrument_id, action, is_trading, is_quoting, reason, trading_event, .. } => {
                assert_eq!(instrument_id, 7);
                assert_eq!(action, expected_action);
                assert_eq!(is_trading, expected_trading);
                assert_eq!(is_quoting, expected_quoting);
                assert_eq!(reason.as_deref(), Some("Venue reason"));
                assert_eq!(trading_event.as_deref(), Some("Trading status"));
            }
            _ => panic!("expected instrument status"),
        }
    }
    assert_eq!(map_status_code("E").0, MarketStatusAction::ShortSellRestrictionChange);
    assert_eq!(map_status_code("zz").0, MarketStatusAction::NoAction);
}

#[test]
fn test_dispatches_official_stream_batch_to_domain_events() {
    let mut dispatcher = AlpacaDataDispatcher::<u32, u32>::new();
    dispatcher.register_instrument("AAPL".to_string(), 1, 2, 0);
    dispatcher.register_instrument("AMD".to_string(), 2, 2, 0);
    assert!(matches!(
        dispatcher.dispatch(&MarketDataKind::Trade, "AAPL").unwrap(),
        DispatchPlan::Trade { instrument_id: 1, price_precision: 2, size_precision: 0 }
    ));
    assert!(matches!(
        dispatcher.dispatch(&MarketDataKind::Quote, "AMD").unwrap(),
        DispatchPlan::Quote { instrument_id: 2, price_precision: 2, size_precision: 0 }
    ));
}

#[test]
fn test_updated_bar_uses_registered_minute_bar_identity() {
    let mut dispatcher = AlpacaDataDispatcher::<u32, u32>::new();
    dispatcher.register_instrument("SPY".to_string(), 3, 3, 0);
    assert!(matches!(
        dispatcher.dispatch(&MarketDataKind::UpdatedBar, "SPY"),
        Err(DispatchError::NoMinuteBarType(_))
    ));
    dispatcher.register_bar_types("SPY", Some(42), None).unwrap();
    assert!(matches!(
        dispatcher.dispatch(&MarketDataKind::UpdatedBar, "SPY").unwrap(),
        DispatchPlan::Bar { bar_type: 42, price_precision: 3, size_precision: 0 }
    ));
    assert!(matches!(
        dispatcher.dispatch(&MarketDataKind::DailyBar, "SPY"),
        Err(DispatchError::NoDailyBarType(_))
    ));
}

#[test]
fn test_missing_instrument_is_explicit_error() {
    let dispatcher = AlpacaDataDispatcher::<u32, u32>::new();
    match dispatcher.dispatch(&MarketDataKind::Trade, "UNKNOWN") {
        Err(DispatchError::NotRegistered(symbol)) => assert_eq!(symbol, "UNKNOWN"),
        _ => panic!("expected an unregistered symbol"),
    }
    assert!(matches!(
        dispatcher.dispatch(&MarketDataKind::Control, "UNKNOWN"),
        Err(DispatchError::NotMarketData)
    ));
}

#[test]
fn test_dispatch_preserves_trade_correction_semantics() {
    let mut dispatcher = AlpacaDataDispatcher::<u32, u32>::new();
    dispatcher.register_instrument("AAPL".to_string(), 1, 2, 0);
    assert!(matches!(
        dispatcher.dispatch(&MarketDataKind::TradeCorrection, "AAPL").unwrap(),
        DispatchPlan::TradeCorrection
    ));
}

#[test]
fn test_private_stream_handshake_authorizes_then_listens() {
    let authorized = HandshakeFrame::Authorization(AlpacaAuthorization {
        status: "authorized".to_string(),
        action: "authenticate".to_string(),
    });
    let refused = HandshakeFrame::Authorization(AlpacaAuthorization {
        status: "unauthorized".to_string(),
        action: "authenticate".to_string(),
    });
    let listening = HandshakeFrame::Listening(AlpacaListening { streams: vec!["trade_updates".to_string()] });
    assert_eq!(handshake_step(HandshakePhase::Authorizing, &authorized), HandshakeStep::SendListen);
    assert_eq!(handshake_step(HandshakePhase::Authorizing, &refused), HandshakeStep::AuthorizationFailed);
    assert_eq!(handshake_step(HandshakePhase::Listening, &listening), HandshakeStep::Ready);
    assert_eq!(
        handshake_step(HandshakePhase::Authorizing, &HandshakeFrame::Reconnected),
        HandshakeStep::Wait(HandshakePhase::Authorizing)
    );
    assert_eq!(
        handshake_step(HandshakePhase::Listening, &HandshakeFrame::Other),
        HandshakeStep::Wait(HandshakePhase::Listening)
    );
}
