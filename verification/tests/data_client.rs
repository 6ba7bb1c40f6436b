use nautilus_alpaca::common::enums::{AlpacaBarAdjustment, AlpacaDataFeed};
use nautilus_alpaca::common::params::{text_param, upsert_param, ParamValue};
use nautilus_alpaca::requests::ordering::{corporate_action_order, stable_key_order, str_lt};
use nautilus_alpaca::config::AlpacaDataClientConfig;
use nautilus_alpaca::data::{
    bar_channel, effective_bar_adjustment, historical_feed, historical_page_step, historical_range, historical_response_params,
    historical_timeframe, reached_limit, remaining_page_limit, resolve_historical_range,
    symbol_request, truncate_to_limit, validate_live_instrument, AggregationSource,
    BarAggregation, BarTypeSpec, DataRequestError, HistoricalKind, InstrumentKey, PriceType,
};
use nautilus_alpaca::websocket::client::AlpacaWsAction;

fn bar(step: u64, aggregation: BarAggregation, source: AggregationSource) -> BarTypeSpec {
    BarTypeSpec { step, aggregation, price_type: PriceType::Last, source }
}

fn lookup<'a>(params: &'a [(String, ParamValue)], key: &str) -> Option<&'a str> {
    params.iter().find(|(k, _)| k == key).and_then(|(_, v)| match v {
        ParamValue::Text(s) => Some(s.as_str()),
        ParamValue::Json(_) => None,
    })
}

#[test]
fn test_live_bar_channel() {
    let minute = bar(1, BarAggregation::Minute, AggregationSource::External);
    let day = bar(1, BarAggregation::Day, AggregationSource::External);
    assert_eq!(bar_channel(minute).unwrap(), "bars");
    assert_eq!(bar_channel(day).unwrap(), "dailyBars");
}

#[test]
fn test_historical_timeframe() {
    let cases = [
        (bar(1, BarAggregation::Minute, AggregationSource::External), "1Min"),
        (bar(4, BarAggregation::Hour, AggregationSource::External), "4Hour"),
        (bar(1, BarAggregation::Day, AggregationSource::External), "1Day"),
        (bar(2, BarAggregation::Week, AggregationSource::External), "2Week"),
        (bar(12, BarAggregation::Month, AggregationSource::External), "12Month"),
    ];
    for (spec, expected) in cases {
        assert_eq!(historical_timeframe(spec).unwrap(), expected);
    }
}

#[test]
fn test_historical_timeframe_rejects_internal_and_unsupported_aggregations() {
    let internal = bar(1, BarAggregation::Minute, AggregationSource::Internal);
    assert!(matches!(historical_timeframe(internal), Err(DataRequestError::NotLastExternal)));
    let bid = BarTypeSpec { price_type: PriceType::Bid, ..bar(1, BarAggregation::Minute, AggregationSource::External) };
    assert!(matches!(historical_timeframe(bid), Err(DataRequestError::NotLastExternal)));
    let ticks = bar(100, BarAggregation::Tick, AggregationSource::External);
    assert!(matches!(
        historical_timeframe(ticks),
        Err(DataRequestError::UnsupportedHistoricalAggregation(BarAggregation::Tick))
    ));
}

#[test]
fn test_live_bar_channel_rejects_internal_and_unsupported_widths() {
    let internal = bar(1, BarAggregation::Minute, AggregationSource::Internal);
    let wide = bar(5, BarAggregation::Minute, AggregationSource::External);
    let hourly = bar(1, BarAggregation::Hour, AggregationSource::External);
    assert!(matches!(bar_channel(internal), Err(DataRequestError::InternalBars)));
    assert!(matches!(bar_channel(wide), Err(DataRequestError::UnsupportedLiveBar)));
    assert!(matches!(bar_channel(hourly), Err(DataRequestError::UnsupportedLiveAggregation)));
}

#[test]
fn test_live_subscription_requires_exact_loaded_alpaca_instrument() {
    let loaded = vec![InstrumentKey { symbol: "AAPL".to_string(), venue: "ALPACA".to_string() }];
    assert!(validate_live_instrument("AAPL", "ALPACA", &loaded).is_ok());
    match validate_live_instrument("AAPL", "XNAS", &loaded) {
        Err(DataRequestError::WrongVenue(id)) => assert_eq!(id, "AAPL.XNAS"),
        other => panic!("unexpected {other:?}"),
    }
    match validate_live_instrument("MSFT", "ALPACA", &loaded) {
        Err(DataRequestError::UnknownInstrument(id)) => assert_eq!(id, "MSFT.ALPACA"),
        other => panic!("unexpected {other:?}"),
    }
}

#[test]
fn test_historical_range_requires_ordered_explicit_start() {
    let start: i128 = 1_704_153_600_000_000_000;
    let end: i128 = 1_704_067_200_000_000_000;
    assert!(matches!(
        historical_range(None, Some(end), 0, HistoricalKind::Bars),
        Err(DataRequestError::MissingStart(HistoricalKind::Bars))
    ));
    assert!(matches!(
        historical_range(Some(start), Some(end), 0, HistoricalKind::Quotes),
        Err(DataRequestError::StartNotBeforeEnd(HistoricalKind::Quotes))
    ));
    assert_eq!(historical_range(Some(end), Some(start), 0, HistoricalKind::Trades).unwrap(), (end, start));
    assert_eq!(historical_range(Some(end), None, start, HistoricalKind::Bars).unwrap(), (end, start));
}

#[test]
fn test_resolved_range_without_end_uses_the_clock() {
    let start: i128 = 1_704_067_200_000_000_000;
    let (s, e) = resolve_historical_range(Some(start), None, HistoricalKind::Bars).unwrap();
    assert_eq!(s, start);
    assert!(e > start);
    assert!(matches!(
        resolve_historical_range(None, None, HistoricalKind::Trades),
        Err(DataRequestError::MissingStart(HistoricalKind::Trades))
    ));
}

#[test]
fn test_historical_page_limit_respects_venue_maximum_and_remaining_rows() {
    let cases: [(Option<usize>, usize, u32); 5] = [
        (None, 0, 10_000),
        (Some(25_000), 0, 10_000),
        (Some(25_000), 10_000, 10_000),
        (Some(25_000), 20_000, 5_000),
        (Some(3), 2, 1),
    ];
    for (requested, current, expected) in cases {
        assert_eq!(remaining_page_limit(requested, current), expected);
    }
    assert_eq!(remaining_page_limit(Some(3), 5), 1);
}

#[test]
fn test_limit_reached_and_truncation() {
    assert!(reached_limit(Some(3), 3));
    assert!(!reached_limit(Some(3), 2));
    assert!(!reached_limit(None, 1_000_000));
    let mut rows = vec![1, 2, 3, 4, 5];
    truncate_to_limit(&mut rows, Some(3));
    assert_eq!(rows, vec![1, 2, 3]);
    truncate_to_limit(&mut rows, None);
    assert_eq!(rows, vec![1, 2, 3]);
    truncate_to_limit(&mut rows, Some(10));
    assert_eq!(rows, vec![1, 2, 3]);
}

#[test]
fn test_historical_pagination_stops_at_limit_and_detects_stalls() {
    let first = historical_page_step(&None, &Some("t1".to_string()), Some(10), 5, HistoricalKind::Bars);
    assert_eq!(first.unwrap(), Some("t1".to_string()));
    let done = historical_page_step(&Some("t1".to_string()), &None, Some(10), 6, HistoricalKind::Bars);
    assert_eq!(done.unwrap(), None);
    let full = historical_page_step(&Some("t1".to_string()), &Some("t2".to_string()), Some(10), 10, HistoricalKind::Bars);
    assert_eq!(full.unwrap(), None);
    let stalled = historical_page_step(&Some("t1".to_string()), &Some("t1".to_string()), None, 6, HistoricalKind::Quotes);
    assert!(matches!(stalled, Err(DataRequestError::PaginationStalled(HistoricalKind::Quotes))));
}

#[test]
fn test_historical_response_lineage_preserves_custom_params_and_normalizes_effective_values() {
    let mut params = Vec::new();
    upsert_param(&mut params, "experiment_id", ParamValue::Text("exp-42".to_string()));
    upsert_param(&mut params, "feed", ParamValue::Text("stale".to_string()));

    let params = historical_response_params(
        Some(params),
        AlpacaDataFeed::Sip,
        Some(AlpacaBarAdjustment::Dividend),
    );

    assert_eq!(lookup(&params, "experiment_id"), Some("exp-42"));
    assert_eq!(lookup(&params, "provider"), Some("alpaca"));
    assert_eq!(lookup(&params, "feed"), Some("sip"));
    assert_eq!(lookup(&params, "adjustment"), Some("dividend"));
    assert_eq!(params.len(), 4);
    assert_eq!(params[1].0, "feed");
}

#[test]
fn test_tick_response_params_have_no_adjustment() {
    let params = historical_response_params(None, AlpacaDataFeed::Iex, None);
    assert_eq!(params.len(), 2);
    assert_eq!(lookup(&params, "provider"), Some("alpaca"));
    assert_eq!(lookup(&params, "feed"), Some("iex"));
    assert_eq!(lookup(&params, "adjustment"), None);
}

#[test]
fn test_single_symbol_request_names_one_channel() {
    let request = symbol_request("AAPL".to_string(), AlpacaWsAction::Unsubscribe, "dailyBars");
    assert_eq!(request.action, AlpacaWsAction::Unsubscribe);
    assert_eq!(request.daily_bars, vec!["AAPL".to_string()]);
    assert!(request.trades.is_empty() && request.quotes.is_empty() && request.bars.is_empty());
    assert!(request.statuses.is_empty() && request.updated_bars.is_empty() && request.lulds.is_empty());
}

#[test]
fn test_historical_feed_must_serve_ranges() {
    let config = AlpacaDataClientConfig::default();
    assert_eq!(historical_feed(&config).unwrap(), AlpacaDataFeed::Iex);
    let delayed = AlpacaDataClientConfig { feed: AlpacaDataFeed::DelayedSip, ..Default::default() };
    assert!(matches!(
        historical_feed(&delayed),
        Err(DataRequestError::UnsupportedHistoricalFeed(AlpacaDataFeed::DelayedSip))
    ));
    let otc = AlpacaDataClientConfig {
        feed: AlpacaDataFeed::DelayedSip,
        historical_feed: Some(AlpacaDataFeed::Otc),
        ..Default::default()
    };
    assert_eq!(historical_feed(&otc).unwrap(), AlpacaDataFeed::Otc);
}

#[test]
fn test_bar_adjustment_parameter_overrides_the_configured_default() {
    let default = AlpacaBarAdjustment::Raw;
    assert!(matches!(effective_bar_adjustment(&None, default), Ok(AlpacaBarAdjustment::Raw)));
    let split = Some(vec![("adjustment".to_string(), ParamValue::Text("split".to_string()))]);
    assert!(matches!(effective_bar_adjustment(&split, default), Ok(AlpacaBarAdjustment::Split)));
    let all = Some(vec![
        ("limit".to_string(), ParamValue::Json("10".to_string())),
        ("adjustment".to_string(), ParamValue::Text("all".to_string())),
    ]);
    assert!(matches!(effective_bar_adjustment(&all, AlpacaBarAdjustment::Dividend), Ok(AlpacaBarAdjustment::All)));
    let other = Some(vec![("feed".to_string(), ParamValue::Text("sip".to_string()))]);
    assert!(matches!(effective_bar_adjustment(&other, AlpacaBarAdjustment::Dividend), Ok(AlpacaBarAdjustment::Dividend)));
    // A non-string value is no adjustment parameter, as `Params::get_str` reads it.
    let number = Some(vec![("adjustment".to_string(), ParamValue::Json("1".to_string()))]);
    assert!(matches!(effective_bar_adjustment(&number, default), Ok(AlpacaBarAdjustment::Raw)));
    let bad = Some(vec![("adjustment".to_string(), ParamValue::Text("splits".to_string()))]);
    assert!(matches!(effective_bar_adjustment(&bad, default), Err(DataRequestError::InvalidBarAdjustment)));
}

#[test]
fn test_text_parameter_lookup() {
    let params = vec![
        ("symbols".to_string(), ParamValue::Text("AAPL".to_string())),
        ("limit".to_string(), ParamValue::Json("5".to_string())),
    ];
    assert_eq!(text_param(&params, "symbols"), Some("AAPL"));
    assert_eq!(text_param(&params, "limit"), None);
    assert_eq!(text_param(&params, "missing"), None);
}

#[test]
fn test_text_order_is_code_point_lexicographic() {
    assert!(str_lt("2024-01-02", "2024-01-10"));
    assert!(!str_lt("2024-01-10", "2024-01-02"));
    assert!(str_lt("", "2024"));
    assert!(str_lt("2024", "2024-01"));
    assert!(!str_lt("2024", "2024"));
    assert!(str_lt("Z", "a"));
}

#[test]
fn test_corporate_actions_sort_stably_by_process_date() {
    let dates: Vec<String> = ["2024-03-01", "2024-01-15", "", "2024-03-01", "2024-01-15"]
        .iter()
        .map(|d| d.to_string())
        .collect();
    assert_eq!(stable_key_order(&dates), vec![2, 1, 4, 0, 3]);
    assert_eq!(corporate_action_order(&dates, false, 10), vec![2, 1, 4, 0, 3]);
    // Descending reverses the stable ascending order, ties included, before the cut.
    assert_eq!(corporate_action_order(&dates, true, 10), vec![3, 0, 4, 1, 2]);
    assert_eq!(corporate_action_order(&dates, true, 2), vec![3, 0]);
    assert_eq!(corporate_action_order(&dates, false, 0), Vec::<usize>::new());
    assert_eq!(corporate_action_order(&Vec::new(), true, 5), Vec::<usize>::new());
}
