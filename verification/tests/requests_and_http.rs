use nautilus_alpaca::common::enums::AlpacaDataFeed;
use nautilus_alpaca::decimal::{ExactDecimal, ValueOrder};
use nautilus_alpaca::http::error::{rate_limit_delay, AlpacaHttpError};
use nautilus_alpaca::http::query::{
    AlpacaAssetsQuery, AlpacaCalendarQuery, AlpacaCorporateActionsQuery, AlpacaEmptyQuery,
    AlpacaFeedQuery, AlpacaMarketMoversQuery, AlpacaMostActivesQuery, AlpacaOptionChainQuery,
    AlpacaOptionContractsQuery, AlpacaOrderQuery, AlpacaSnapshotsQuery,
};
use nautilus_alpaca::requests::endpoints::{
    check_calendar, check_corporate_actions, CorporateActionsFilter, ParameterError,
};
use nautilus_alpaca::requests::filters::{
    check_activity_page, check_all_activities, check_asset_key, check_assets, check_auctions,
    check_condition_codes, check_fills, check_market_movers, check_most_actives, check_news,
    check_option_chain, check_option_contracts, check_option_feed, check_option_snapshots,
    check_order_key, FilterError, OptionChainFilter, OptionContractsFilter,
};
use nautilus_alpaca::requests::paging::{
    bounded_page_size, token_page_step, truncate_grouped, validate_activity_type, ActivityPager,
    ListingError,
};
use nautilus_alpaca::requests::validation::{
    historical_range, join_option_symbols, join_unique_symbols, validate_asof, validate_csv,
    validate_equity_symbol, validate_historical_request, validate_historical_timeframe,
    validate_option_date, validate_option_strikes, validate_watchlist_key, RequestError,
};

fn pairs(v: &[(&str, &str)]) -> Vec<(String, String)> {
    v.iter().map(|(k, x)| (k.to_string(), x.to_string())).collect()
}

#[test]
fn test_ambiguous_write_classification() {
    let cases = [
        (AlpacaHttpError::Transport("timed out".to_string()), true),
        (AlpacaHttpError::Http { status: 503, message: "unavailable".to_string() }, true),
        (AlpacaHttpError::Http { status: 422, message: "rejected".to_string() }, false),
        (AlpacaHttpError::RateLimited { retry_after_secs: Some(1) }, false),
        (AlpacaHttpError::Authentication("forbidden".to_string()), false),
    ];
    for (error, expected) in cases {
        assert_eq!(error.is_ambiguous_write(), expected);
    }
}

#[test]
fn test_rate_limit_delay_prefers_retry_after() {
    let error = AlpacaHttpError::from_http_response(429, b"slow down", Some("7"), Some("1700000100"), Some(1_700_000_000));
    assert!(matches!(error, AlpacaHttpError::RateLimited { retry_after_secs: Some(7) }));
    assert_eq!(error.retry_after(), Some(7));
    assert_eq!(rate_limit_delay(None, Some("1700000100"), Some(1_700_000_000)), Some(100));
    assert_eq!(rate_limit_delay(Some("soon"), None, None), None);
}

#[test]
fn test_status_classification_decides_retries() {
    let auth = AlpacaHttpError::from_http_status(401, b"bad key");
    assert!(matches!(&auth, AlpacaHttpError::Authentication(m) if m == "bad key"));
    assert!(!auth.is_retryable());
    let limited = AlpacaHttpError::from_http_status(429, b"");
    assert!(limited.is_retryable());
    let server = AlpacaHttpError::from_http_status(502, b"bad gateway");
    assert!(server.is_retryable() && server.is_ambiguous_write());
    let client = AlpacaHttpError::from_http_status(404, b"not found");
    assert!(matches!(&client, AlpacaHttpError::Http { status: 404, message } if message == "not found"));
    assert!(!client.is_retryable());
    let lossy = AlpacaHttpError::from_http_status(500, &[0x66, 0xff, 0x6f]);
    assert!(matches!(&lossy, AlpacaHttpError::Http { message, .. } if message == "f\u{FFFD}o"));
}

#[test]
fn test_queries_encode_only_present_parameters() {
    assert!(AlpacaEmptyQuery {}.pairs().is_empty());
    assert_eq!(
        AlpacaAssetsQuery::active_us_equities().pairs(),
        pairs(&[("status", "active"), ("asset_class", "us_equity")])
    );
    assert_eq!(AlpacaFeedQuery { feed: AlpacaDataFeed::DelayedSip }.pairs(), pairs(&[("feed", "delayed_sip")]));
    assert_eq!(
        AlpacaSnapshotsQuery { symbols: "AAPL,MSFT", feed: AlpacaDataFeed::Sip }.pairs(),
        pairs(&[("symbols", "AAPL,MSFT"), ("feed", "sip")])
    );
    assert_eq!(AlpacaMostActivesQuery { by: "volume", top: 10 }.pairs(), pairs(&[("by", "volume"), ("top", "10")]));
    assert_eq!(AlpacaMarketMoversQuery { top: 5 }.pairs(), pairs(&[("top", "5")]));
    assert_eq!(AlpacaOrderQuery { nested: true }.pairs(), pairs(&[("nested", "true")]));
    assert_eq!(
        AlpacaCalendarQuery { start: None, end: Some("2024-01-31") }.pairs(),
        pairs(&[("end", "2024-01-31")])
    );
    let contracts = AlpacaOptionContractsQuery {
        underlying_symbols: Some("AAPL"),
        show_deliverables: false,
        status: "active",
        expiration_date: None,
        expiration_date_gte: None,
        expiration_date_lte: None,
        root_symbol: None,
        option_type: Some("call"),
        style: None,
        strike_price_gte: None,
        strike_price_lte: None,
        limit: 100,
        page_token: None,
        ppind: Some(true),
    };
    assert_eq!(
        contracts.pairs(),
        pairs(&[
            ("underlying_symbols", "AAPL"),
            ("show_deliverables", "false"),
            ("status", "active"),
            ("type", "call"),
            ("limit", "100"),
            ("ppind", "true"),
        ])
    );
    let chain = AlpacaOptionChainQuery {
        feed: "indicative",
        limit: 1000,
        updated_since: None,
        page_token: Some("tok"),
        option_type: None,
        strike_price_gte: None,
        strike_price_lte: None,
        expiration_date: None,
        expiration_date_gte: None,
        expiration_date_lte: None,
        root_symbol: None,
    };
    assert_eq!(chain.pairs(), pairs(&[("feed", "indicative"), ("limit", "1000"), ("page_token", "tok")]));
    let actions = AlpacaCorporateActionsQuery {
        symbols: Some("AAPL"),
        cusips: None,
        action_types: Some("cash_dividend"),
        start: None,
        end: None,
        ids: None,
        region: None,
        data_quality: None,
        limit: 1000,
        sort: "asc",
        page_token: None,
    };
    assert_eq!(
        actions.pairs(),
        pairs(&[("symbols", "AAPL"), ("types", "cash_dividend"), ("limit", "1000"), ("sort", "asc")])
    );
}

#[test]
fn test_symbol_and_list_validation() {
    assert!(validate_equity_symbol("AAPL").is_ok());
    for bad in ["", "  ", " AAPL", "AAPL,MSFT", "BRK/B"] {
        assert!(matches!(validate_equity_symbol(bad), Err(RequestError::InvalidSymbol)));
    }
    assert!(validate_csv(Some("AAPL,MSFT"), "symbols").is_ok());
    assert!(validate_csv(None, "symbols").is_ok());
    assert!(matches!(validate_csv(Some("AAPL,,MSFT"), "symbols"), Err(RequestError::InvalidList { .. })));
    assert_eq!(join_unique_symbols(vec!["AAPL".to_string(), "MSFT".to_string()], "symbols").unwrap(), "AAPL,MSFT");
    assert!(matches!(join_unique_symbols(vec![], "symbols"), Err(RequestError::NoSymbols { .. })));
    assert!(join_unique_symbols(vec!["AAPL".to_string(), "AAPL".to_string()], "symbols").is_err());
    assert_eq!(
        join_option_symbols(vec!["AAPL240119C00190000".to_string()], "symbols").unwrap(),
        "AAPL240119C00190000"
    );
    assert!(join_option_symbols(vec!["aapl".to_string()], "symbols").is_err());
}

#[test]
fn test_historical_request_validation() {
    let (start, end) = historical_range("2024-01-01T00:00:00Z", "2024-01-02T00:00:00Z").unwrap();
    assert_eq!(end - start, 86_400_000_000_000);
    assert!(matches!(historical_range("yesterday", "2024-01-02T00:00:00Z"), Err(RequestError::InvalidStart)));
    assert!(matches!(historical_range("2024-01-01T00:00:00Z", "later"), Err(RequestError::InvalidEnd)));
    assert!(matches!(
        historical_range("2024-01-02T00:00:00Z", "2024-01-01T00:00:00Z"),
        Err(RequestError::StartNotBeforeEnd)
    ));
    assert!(validate_historical_request("AAPL", AlpacaDataFeed::Iex, 100).is_ok());
    assert!(matches!(
        validate_historical_request("AAPL", AlpacaDataFeed::Overnight, 100),
        Err(RequestError::HistoricalRangesUnsupported(AlpacaDataFeed::Overnight))
    ));
    assert!(matches!(validate_historical_request("AAPL", AlpacaDataFeed::Sip, 0), Err(RequestError::HistoricalMaxItems)));
    for ok in ["1Min", "59T", "4Hour", "1Day", "1W", "12Month", "6M"] {
        assert!(validate_historical_timeframe(ok).is_ok(), "{ok}");
    }
    for bad in ["0Min", "60Min", "2Day", "5Month", "Min", "1Year"] {
        assert!(validate_historical_timeframe(bad).is_err(), "{bad}");
    }
    assert!(validate_asof(Some("-")).is_ok());
    assert!(validate_asof(Some("2024-01-02")).is_ok());
    assert!(matches!(validate_asof(Some("2024-13-02")), Err(RequestError::InvalidAsOf)));
}

#[test]
fn test_option_request_validation() {
    assert!(validate_option_date(Some("2024-06-21"), "expiration_date").is_ok());
    assert!(matches!(
        validate_option_date(Some("21/06/2024"), "expiration_date"),
        Err(RequestError::InvalidOptionDate { label }) if label == "expiration_date"
    ));
    assert!(validate_option_strikes(Some("100"), Some("200.5")).is_ok());
    assert!(validate_option_strikes(Some("200"), Some("100")).is_err());
    assert!(validate_option_strikes(Some("-1"), None).is_err());
    assert!(validate_watchlist_key("name", "Tech", true).is_ok());
    assert!(validate_watchlist_key("name", "a/b", true).is_err());
    assert!(validate_watchlist_key("id", "a/b", false).is_ok());
    assert!(matches!(
        validate_watchlist_key("name", " ", false),
        Err(RequestError::InvalidWatchlistKey { reject_slash: false, .. })
    ));
}

#[test]
fn test_endpoint_parameter_checks() {
    let filter = CorporateActionsFilter {
        symbols: Some("AAPL"),
        cusips: None,
        action_types: Some("cash_dividend,forward_split"),
        start: Some("2024-01-01"),
        end: Some("2024-02-01"),
        ids: None,
        region: None,
        data_quality: None,
        sort: "asc",
        max_items: 100,
    };
    assert!(check_corporate_actions(&filter).is_ok());
    let unknown_type = CorporateActionsFilter { action_types: Some("merger"), ..filter };
    assert_eq!(check_corporate_actions(&unknown_type).unwrap_err(), ParameterError::UnsupportedActionType);
    let reversed = CorporateActionsFilter { start: Some("2024-03-01"), ..filter };
    assert_eq!(check_corporate_actions(&reversed).unwrap_err(), ParameterError::StartAfterEnd);
    let ids = CorporateActionsFilter { ids: Some("id-1"), ..filter };
    assert_eq!(check_corporate_actions(&ids).unwrap_err(), ParameterError::IdsWithFilters);
    assert!(check_calendar(Some("2024-01-01"), Some("2024-01-31")).is_ok());
    assert_eq!(check_calendar(Some("2024-02-01"), Some("2024-01-31")).unwrap_err(), ParameterError::StartAfterEnd);
}

#[test]
fn test_non_trade_activities_follow_cursor_and_honor_exact_bound() {
    let mut pager = ActivityPager::new(101, None, None).unwrap();
    assert_eq!(pager.page_size(), 100);
    assert_eq!(pager.accept(100, 100, Some("fee-099".to_string())).unwrap(), 100);
    assert!(!pager.is_finished());
    assert_eq!(pager.cursor(), Some("fee-099".to_string()));
    assert_eq!(pager.page_size(), 1);
    assert_eq!(pager.accept(1, 1, Some("fee-100".to_string())).unwrap(), 1);
    assert!(pager.is_finished());
    assert!(matches!(ActivityPager::new(0, None, None), Err(ListingError::MaxItemsOutOfRange)));
    assert!(matches!(ActivityPager::new(5, Some(2), Some(1)), Err(ListingError::StartNotBeforeEnd)));
}

#[test]
fn test_listing_helpers() {
    assert_eq!(bounded_page_size(250, 200, 100), 50);
    assert_eq!(bounded_page_size(250, 0, 100), 100);
    assert!(matches!(
        token_page_step(&Some("a".to_string()), &Some("a".to_string())),
        Err(ListingError::Stalled)
    ));
    assert_eq!(token_page_step(&None, &Some("a".to_string())).unwrap(), Some("a".to_string()));
    assert!(validate_activity_type("FEE").is_ok());
    assert!(validate_activity_type("fee").is_err());
    assert!(validate_activity_type("FEE/1").is_err());
}

#[test]
fn test_grouped_rows_are_cut_to_the_limit_in_key_order() {
    let mut groups = vec![
        ("AAPL".to_string(), vec![1, 2, 3]),
        ("MSFT".to_string(), vec![4, 5, 6]),
        ("SPY".to_string(), vec![7]),
    ];
    truncate_grouped(&mut groups, 4);
    assert_eq!(groups[0].1, vec![1, 2, 3]);
    assert_eq!(groups[1].1, vec![4]);
    assert!(groups[2].1.is_empty());
    assert_eq!(groups[2].0, "SPY");
}

#[test]
fn test_decimal_normalization_keeps_value() {
    let value = ExactDecimal::from_parts(false, 18_750_000, 5);
    let normalized = value.normalize();
    assert_eq!(normalized, ExactDecimal::from_parts(false, 1_875, 1));
    assert_eq!(value.compare(&normalized), ValueOrder::Equal);
    assert!(value.same_value(&normalized));
    assert_eq!(value.normalized_scale(), 1);
    let zero = ExactDecimal::from_parts(true, 0, 3).normalize();
    assert_eq!(zero, ExactDecimal::from_parts(false, 0, 0));
    let a = ExactDecimal::from_parts(false, 12_500_125, 3);
    let b = ExactDecimal::from_parts(false, 10_000_125, 3);
    assert!(a.minus(&b).same_value(&ExactDecimal::from_parts(false, 2_500, 0)));
    // A zero operand hands back the other one at its own scale.
    let zero = ExactDecimal::from_parts(false, 0, 0);
    assert_eq!(zero.minus(&ExactDecimal::from_parts(false, 125, 2)), ExactDecimal::from_parts(true, 125, 2));
    assert_eq!(ExactDecimal::from_parts(false, 125, 2).minus(&zero), ExactDecimal::from_parts(false, 125, 2));
    assert_eq!(
        ExactDecimal::from_parts(false, 25, 0).hundredth(),
        ExactDecimal::from_parts(false, 25, 2)
    );
    assert_eq!(ExactDecimal::from_parts(true, 5, 1).compare(&ExactDecimal::from_parts(false, 1, 3)), ValueOrder::Less);
    assert_eq!(ExactDecimal::from_parts(true, 5, 1).mantissa(), -5);
}

#[test]
fn test_reference_data_parameter_checks() {
    assert!(check_option_feed("opra").is_ok());
    assert!(matches!(check_option_feed("sip"), Err(FilterError::OptionFeed)));
    assert!(check_most_actives("volume", 10).is_ok());
    assert!(matches!(check_most_actives("price", 10), Err(FilterError::MostActivesRanking)));
    assert!(matches!(check_most_actives("trades", 0), Err(FilterError::MostActivesTop)));
    assert!(matches!(check_market_movers(51), Err(FilterError::MarketMoversTop)));
    assert!(check_condition_codes("trade", "A").is_ok());
    assert!(matches!(check_condition_codes("bar", "A"), Err(FilterError::ConditionTickType)));
    assert!(matches!(check_condition_codes("quote", "D"), Err(FilterError::ConditionTape)));
    assert!(check_asset_key("AAPL").is_ok());
    assert!(matches!(check_asset_key("BRK/B"), Err(FilterError::AssetKey)));

    assert_eq!(
        check_assets("active", Some("NASDAQ"), &Some(vec!["ipo".to_string(), "has_options".to_string()])).unwrap(),
        Some("ipo,has_options".to_string())
    );
    assert_eq!(check_assets("all", None, &None).unwrap(), None);
    assert!(matches!(check_assets("listed", None, &None), Err(FilterError::AssetStatus)));
    assert!(matches!(check_assets("active", Some(" X"), &None), Err(FilterError::Exchange)));
    assert!(matches!(check_assets("active", None, &Some(vec![])), Err(FilterError::EmptyAttributes)));
    assert!(matches!(
        check_assets("active", None, &Some(vec!["spac".to_string()])),
        Err(FilterError::UnsupportedAttribute)
    ));
    assert!(matches!(
        check_assets("active", None, &Some(vec!["ipo".to_string(), "ipo".to_string()])),
        Err(FilterError::DuplicateAttributes)
    ));

    let chain = OptionChainFilter {
        underlying_symbol: "AAPL",
        feed: "indicative",
        option_type: Some("call"),
        strike_price_gte: Some("150"),
        strike_price_lte: Some("200"),
        expiration_date: None,
        expiration_date_gte: Some("2024-06-01"),
        expiration_date_lte: None,
        root_symbol: None,
        updated_since: None,
        max_items: 1000,
    };
    assert!(check_option_chain(&chain).is_ok());
    assert!(matches!(
        check_option_chain(&OptionChainFilter { max_items: 0, ..chain }),
        Err(FilterError::OptionChainMaxItems)
    ));
    assert!(matches!(
        check_option_chain(&OptionChainFilter { option_type: Some("straddle"), ..chain }),
        Err(FilterError::Invalid(RequestError::InvalidOptionType))
    ));
    assert_eq!(
        check_option_snapshots(vec!["AAPL240621C00150000".to_string()], "opra", None, 100).unwrap(),
        "AAPL240621C00150000"
    );
    assert!(matches!(
        check_option_snapshots(vec!["AAPL240621C00150000".to_string()], "opra", None, 101),
        Err(FilterError::OptionSnapshotMaxItems)
    ));
    let contracts = OptionContractsFilter {
        status: "active",
        option_type: None,
        style: Some("american"),
        expiration_date: None,
        expiration_date_gte: None,
        expiration_date_lte: None,
        root_symbol: None,
        strike_price_gte: None,
        strike_price_lte: None,
        max_items: 500,
    };
    assert_eq!(
        check_option_contracts(&contracts, Some(vec!["AAPL".to_string(), "MSFT".to_string()])).unwrap(),
        Some("AAPL,MSFT".to_string())
    );
    assert!(matches!(
        check_option_contracts(&OptionContractsFilter { style: Some("asian"), ..contracts }, None),
        Err(FilterError::OptionStyle)
    ));
    assert!(matches!(
        check_option_contracts(&OptionContractsFilter { status: "expired", ..contracts }, None),
        Err(FilterError::OptionContractStatus)
    ));

    let (start, end) = check_news("desc", 50, Some("AAPL,MSFT"), Some("2024-01-01T00:00:00Z"), None).unwrap();
    assert!(start.is_some() && end.is_none());
    assert!(matches!(check_news("newest", 50, None, None, None), Err(FilterError::NewsSort)));
    assert!(matches!(check_news("asc", 0, None, None, None), Err(FilterError::NewsMaxItems)));
    assert!(matches!(check_news("asc", 5, Some("AAPL, MSFT"), None, None), Err(FilterError::NewsSymbols)));
    assert!(matches!(
        check_news("asc", 5, None, Some("2024-01-02T00:00:00Z"), Some("2024-01-01T00:00:00Z")),
        Err(FilterError::StartNotBeforeEnd)
    ));
    assert!(matches!(check_news("asc", 5, None, Some("soon"), None), Err(FilterError::InvalidStart)));

    assert!(check_order_key("order_id", "abc").is_ok());
    assert!(matches!(check_order_key("client_order_id", " abc"), Err(FilterError::OrderKey { label }) if label == "client_order_id"));
    assert!(matches!(check_activity_page(0, None, None), Err(FilterError::ActivityPageSize)));
    assert!(check_activity_page(100, None, None).is_ok());
    assert!(matches!(check_all_activities(100_001, None, None), Err(FilterError::ActivityMaxItems)));
    assert!(matches!(check_fills(0, None, None, None), Err(FilterError::FillMaxItems)));
    assert!(matches!(check_fills(10, Some(""), None, None), Err(FilterError::OrderKey { .. })));
    assert!(matches!(check_fills(10, None, None, Some("later")), Err(FilterError::InvalidEnd)));

    let (joined, (s, e)) = check_auctions(
        vec!["AAPL".to_string(), "MSFT".to_string()],
        100,
        Some("-"),
        "2024-01-01T00:00:00Z",
        "2024-01-02T00:00:00Z",
    )
    .unwrap();
    assert_eq!(joined, "AAPL,MSFT");
    assert!(s < e);
    assert!(matches!(
        check_auctions(vec!["AAPL".to_string()], 0, None, "2024-01-01T00:00:00Z", "2024-01-02T00:00:00Z"),
        Err(FilterError::Invalid(RequestError::HistoricalMaxItems))
    ));
}
