use nautilus_alpaca::common::credential::{credential_env_vars, AlpacaCredential};
use nautilus_alpaca::common::enums::{
    AlpacaBarAdjustment, AlpacaDataEnvironment, AlpacaDataFeed, AlpacaEnvironment,
};
use nautilus_alpaca::common::urls::{data_http_url, data_ws_url, trading_http_url, trading_ws_url};
use nautilus_alpaca::config::{
    AccountType, AlpacaDataClientConfig, AlpacaExecutionClientConfig, ConfigError,
};
use nautilus_alpaca::data::InstrumentKey;
use nautilus_alpaca::factories::{
    explicit_value, AlpacaDataClientFactory, AlpacaExecutionClientFactory,
};
use nautilus_alpaca::provider::{
    assets_query, check_instrument_count, check_requested_instrument, check_returned_instrument,
    ProviderError,
};

fn key(symbol: &str, venue: &str) -> InstrumentKey {
    InstrumentKey { symbol: symbol.to_string(), venue: venue.to_string() }
}

#[test]
fn test_trading_urls_are_environment_specific() {
    assert_eq!(trading_http_url(AlpacaEnvironment::Live), "https://api.alpaca.markets");
    assert_eq!(trading_http_url(AlpacaEnvironment::Paper), "https://paper-api.alpaca.markets");
    assert_eq!(trading_ws_url(AlpacaEnvironment::Paper), "wss://paper-api.alpaca.markets/stream");
}

#[test]
fn test_data_ws_url_uses_feed_protocol_version() {
    let cases = [
        (AlpacaDataFeed::Iex, "wss://stream.data.alpaca.markets/v2/iex"),
        (AlpacaDataFeed::Sip, "wss://stream.data.alpaca.markets/v2/sip"),
        (AlpacaDataFeed::DelayedSip, "wss://stream.data.alpaca.markets/v2/delayed_sip"),
        (AlpacaDataFeed::Boats, "wss://stream.data.alpaca.markets/v1beta1/boats"),
        (AlpacaDataFeed::Overnight, "wss://stream.data.alpaca.markets/v1beta1/overnight"),
    ];
    for (feed, expected) in cases {
        assert_eq!(data_ws_url(AlpacaDataEnvironment::Live, feed), expected);
    }
}

#[test]
fn test_sandbox_data_stream_and_default_data_http_url() {
    assert_eq!(
        data_ws_url(AlpacaDataEnvironment::Sandbox, AlpacaDataFeed::Iex),
        "wss://stream.data.sandbox.alpaca.markets/v2/iex"
    );
    assert_eq!(data_http_url(), "https://data.alpaca.markets");
}

#[test]
fn test_headers_use_alpaca_names() {
    let headers = AlpacaCredential::new("key", "secret").headers();
    assert_eq!(headers.len(), 2);
    assert_eq!(headers[0], ("APCA-API-KEY-ID".to_string(), "key".to_string()));
    assert_eq!(headers[1], ("APCA-API-SECRET-KEY".to_string(), "secret".to_string()));
}

#[test]
fn test_masked_api_key_hides_all_but_the_ends() {
    let long = AlpacaCredential::new("PKTEST123456", "secret-value");
    assert_eq!(long.masked_api_key(), "PKTE...3456");
    let short = AlpacaCredential::new("PKTEST12", "secret-value");
    assert_eq!(short.masked_api_key(), "********");
    assert_eq!(long.api_key(), "PKTEST123456");
    assert_eq!(long.api_secret(), "secret-value");
}

#[test]
fn test_credential_pair_needs_both_values() {
    assert!(AlpacaCredential::from_pair(Some("k".to_string()), None).is_none());
    assert!(AlpacaCredential::from_pair(None, Some("s".to_string())).is_none());
    let both = AlpacaCredential::from_pair(Some("k".to_string()), Some("s".to_string())).unwrap();
    assert_eq!(both.api_key(), "k");
    assert_eq!(credential_env_vars(), ("ALPACA_API_KEY", "ALPACA_API_SECRET"));
}

#[test]
fn test_execution_defaults_are_paper_and_never_implicitly_live() {
    let config = AlpacaExecutionClientConfig::default();
    assert_eq!(config.environment, AlpacaEnvironment::Paper);
    assert_eq!(config.trading_http_url(), "https://paper-api.alpaca.markets");
    assert_eq!(config.trading_ws_url(), "wss://paper-api.alpaca.markets/stream");
    assert_eq!(config.account_id, "ALPACA-001");
    assert_eq!(config.account_type, AccountType::Margin);
}

#[test]
fn test_live_execution_requires_explicit_environment() {
    let config =
        AlpacaExecutionClientConfig { environment: AlpacaEnvironment::Live, ..Default::default() };
    assert_eq!(config.trading_http_url(), "https://api.alpaca.markets");
    assert_eq!(config.trading_ws_url(), "wss://api.alpaca.markets/stream");
}

#[test]
fn test_data_urls_follow_feed_and_allow_isolated_overrides() {
    let config = AlpacaDataClientConfig {
        feed: AlpacaDataFeed::Sip,
        base_url_data_http: Some("http://history.test".to_string()),
        ..Default::default()
    };
    assert_eq!(config.data_http_url(), "http://history.test");
    assert_eq!(config.data_ws_url(), "wss://stream.data.alpaca.markets/v2/sip");
    assert_eq!(config.trading_http_url(), "https://paper-api.alpaca.markets");
    assert_eq!(config.bar_adjustment, AlpacaBarAdjustment::Raw);
}

#[test]
fn test_historical_feed_can_differ_from_live_feed() {
    let config = AlpacaDataClientConfig {
        feed: AlpacaDataFeed::DelayedSip,
        historical_feed: Some(AlpacaDataFeed::Otc),
        ..Default::default()
    };
    assert_eq!(config.feed, AlpacaDataFeed::DelayedSip);
    assert_eq!(config.effective_historical_feed(), AlpacaDataFeed::Otc);
    assert!(config.feed.supports_live_streaming());
    assert!(config.effective_historical_feed().supports_historical_ranges());
    assert!(!AlpacaDataFeed::Overnight.supports_historical_ranges());
    assert!(config.validate().is_ok());
}

#[test]
fn test_data_config_validation_fails_before_connect_for_invalid_combinations() {
    let wrong_venue = AlpacaDataClientConfig {
        instrument_ids: Some(vec![key("AAPL", "XNAS")]),
        ..Default::default()
    };
    let no_historical_feed =
        AlpacaDataClientConfig { feed: AlpacaDataFeed::DelayedSip, ..Default::default() };
    let empty_universe =
        AlpacaDataClientConfig { instrument_ids: Some(Vec::new()), ..Default::default() };

    match wrong_venue.validate() {
        Err(ConfigError::WrongVenue(id)) => assert_eq!(id, "AAPL.XNAS"),
        other => panic!("unexpected {other:?}"),
    }
    assert!(matches!(
        no_historical_feed.validate(),
        Err(ConfigError::UnsupportedHistoricalFeed(AlpacaDataFeed::DelayedSip))
    ));
    assert!(matches!(empty_universe.validate(), Err(ConfigError::EmptyInstrumentIds)));
}

#[test]
fn test_data_config_rejects_otc_live_feed_and_zero_timeout() {
    let otc = AlpacaDataClientConfig { feed: AlpacaDataFeed::Otc, ..Default::default() };
    assert!(matches!(otc.validate(), Err(ConfigError::HistoricalOnlyLiveFeed)));
    let zero = AlpacaDataClientConfig { http_timeout_secs: 0, ..Default::default() };
    assert!(matches!(zero.validate(), Err(ConfigError::ZeroTimeout)));
    let alpaca_only = AlpacaDataClientConfig {
        instrument_ids: Some(vec![key("AAPL", "ALPACA"), key("MSFT", "ALPACA")]),
        ..Default::default()
    };
    assert!(alpaca_only.validate().is_ok());
}

#[test]
fn test_execution_config_rejects_zero_timeout() {
    let config = AlpacaExecutionClientConfig { http_timeout_secs: 0, ..Default::default() };
    assert!(matches!(config.validate(), Err(ConfigError::ZeroTimeout)));
}

#[test]
fn test_execution_config_rejects_unsupported_account_type() {
    let config =
        AlpacaExecutionClientConfig { account_type: AccountType::Betting, ..Default::default() };
    assert!(matches!(
        config.validate(),
        Err(ConfigError::UnsupportedAccountType(AccountType::Betting))
    ));
    let cash = AlpacaExecutionClientConfig { account_type: AccountType::Cash, ..Default::default() };
    assert!(cash.validate().is_ok());
}

#[test]
fn test_safe_config_representations_are_informative_and_redacted() {
    let data = AlpacaDataClientConfig {
        api_key: Some("visible-key".to_string()),
        api_secret: Some("visible-secret".to_string()),
        base_url_data_http: Some("https://token@data.example".to_string()),
        proxy_url: Some("https://proxy-secret".to_string()),
        instrument_ids: Some(vec![key("AAPL", "ALPACA")]),
        feed: AlpacaDataFeed::Sip,
        ..Default::default()
    };
    let execution = AlpacaExecutionClientConfig {
        api_key: Some("visible-key".to_string()),
        api_secret: Some("visible-secret".to_string()),
        base_url_trading_http: Some("https://token@trading.example".to_string()),
        proxy_url: Some("https://proxy-secret".to_string()),
        extended_hours: true,
        ..Default::default()
    };

    let data_repr = data.safe_repr();
    let execution_repr = execution.safe_repr();

    assert!(data_repr.contains("feed=sip"));
    assert!(data_repr.contains("instrument_count=1"));
    assert!(execution_repr.contains("environment=paper"));
    assert!(execution_repr.contains("extended_hours=true"));
    for secret in ["visible-key", "visible-secret", "token@", "proxy-secret"] {
        assert!(!data_repr.contains(secret));
        assert!(!execution_repr.contains(secret));
    }
}

#[test]
fn test_safe_repr_exact_text() {
    let data = AlpacaDataClientConfig::default();
    assert_eq!(
        data.safe_repr(),
        "AlpacaDataClientConfig(data_environment=live, trading_environment=paper, feed=iex, \
         historical_feed=iex, bar_adjustment=raw, instrument_count=0, http_timeout_secs=10, \
         http_max_retries=3, has_credentials=false, has_proxy_url=false)"
    );
    let execution = AlpacaExecutionClientConfig::default();
    assert_eq!(
        execution.safe_repr(),
        "AlpacaExecutionClientConfig(account_id=ALPACA-001, environment=paper, \
         account_type=MARGIN, extended_hours=false, http_timeout_secs=10, http_max_retries=3, \
         has_credentials=false, has_proxy_url=false)"
    );
}

#[test]
fn test_factories_resolve_client_setup() {
    let factory = AlpacaDataClientFactory;
    assert_eq!(factory.name(), "ALPACA");
    assert_eq!(factory.config_type(), "AlpacaDataClientConfig");
    let config = AlpacaDataClientConfig {
        proxy_url: Some("http://proxy.test".to_string()),
        ..Default::default()
    };
    let setup = factory.setup(&config).unwrap();
    assert_eq!(setup.data_http_url, "https://data.alpaca.markets");
    assert_eq!(setup.trading_http_url, "https://paper-api.alpaca.markets");
    assert_eq!(setup.data_ws_url, "wss://stream.data.alpaca.markets/v2/iex");
    assert_eq!(setup.proxy_url.as_deref(), Some("http://proxy.test"));
    assert_eq!(setup.http_timeout_secs, 10);
    assert_eq!(setup.http_max_retries, 3);
    let bad = AlpacaDataClientConfig { http_timeout_secs: 0, ..Default::default() };
    assert!(matches!(factory.setup(&bad), Err(ConfigError::ZeroTimeout)));

    let exec_factory = AlpacaExecutionClientFactory;
    assert_eq!(exec_factory.name(), "ALPACA");
    assert_eq!(exec_factory.config_type(), "AlpacaExecutionClientConfig");
    let exec = AlpacaExecutionClientConfig {
        environment: AlpacaEnvironment::Live,
        ..Default::default()
    };
    let setup = exec_factory.setup(&exec).unwrap();
    assert_eq!(setup.data_http_url, "https://data.alpaca.markets");
    assert_eq!(setup.trading_http_url, "https://api.alpaca.markets");
    assert_eq!(setup.trading_ws_url, "wss://api.alpaca.markets/stream");
}

#[test]
fn test_blank_configured_credentials_fall_back() {
    assert_eq!(explicit_value(&Some("  ".to_string())), None);
    assert_eq!(explicit_value(&None), None);
    assert_eq!(explicit_value(&Some("key".to_string())), Some("key".to_string()));
}

#[test]
fn test_provider_queries_and_checks() {
    let query = assets_query(None, Some("NASDAQ"), None);
    assert_eq!(query.status, Some("active"));
    assert_eq!(query.asset_class, "us_equity");
    assert_eq!(query.exchange, Some("NASDAQ"));
    let inactive = assets_query(Some("inactive"), None, None);
    assert_eq!(inactive.status, Some("inactive"));

    assert!(matches!(check_instrument_count(0), Err(ProviderError::NoInstrumentIds)));
    assert!(check_instrument_count(2).is_ok());
    match check_requested_instrument(&key("AAPL", "XNAS")) {
        Err(ProviderError::WrongVenue(id)) => assert_eq!(id, "AAPL.XNAS"),
        other => panic!("unexpected {other:?}"),
    }
    assert!(check_requested_instrument(&key("AAPL", "ALPACA")).is_ok());
    assert!(check_returned_instrument("AAPL.ALPACA", &key("AAPL", "ALPACA")).is_ok());
    match check_returned_instrument("MSFT.ALPACA", &key("AAPL", "ALPACA")) {
        Err(ProviderError::MismatchedInstrument { returned, requested }) => {
            assert_eq!(returned, "MSFT.ALPACA");
            assert_eq!(requested, "AAPL.ALPACA");
        }
        other => panic!("unexpected {other:?}"),
    }
}
