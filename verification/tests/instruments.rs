use nautilus_alpaca::common::info::InfoValue;
use nautilus_alpaca::decimal::ExactDecimal;
use nautilus_alpaca::http::models::{AlpacaAsset, AlpacaAssetClass, AlpacaAssetStatus};
use nautilus_alpaca::http::parse::{parse_equity, AssetRejection, EquityDefinition};

fn dec(digits: u128, scale: u32) -> ExactDecimal {
    ExactDecimal::from_parts(false, digits, scale)
}

fn asset() -> AlpacaAsset {
    AlpacaAsset {
        id: "b0b6dd9d-8b9b-48a9-ba46-b9d54906e415".to_string(),
        asset_class: AlpacaAssetClass::UsEquity,
        exchange: "NASDAQ".to_string(),
        symbol: "AAPL".to_string(),
        name: "Apple Inc. Common Stock".to_string(),
        status: AlpacaAssetStatus::Active,
        tradable: true,
        marginable: true,
        shortable: true,
        borrow_status: Some("easy_to_borrow".to_string()),
        easy_to_borrow: None,
        fractionable: true,
        cusip: Some("037833100".to_string()),
        maintenance_margin_requirement: Some(dec(30, 0)),
        margin_requirement_long: Some(dec(30, 0)),
        margin_requirement_short: Some(dec(35, 0)),
        min_order_size: Some(dec(1, 6)),
        min_trade_increment: Some(dec(1, 6)),
        price_increment: Some(dec(1, 2)),
        attributes: vec!["fractional_eh_enabled".to_string()],
    }
}

fn info<'a>(equity: &'a EquityDefinition, key: &str) -> &'a InfoValue {
    &equity.info.iter().find(|(k, _)| k == key).unwrap().1
}

#[test]
fn test_parse_fractionable_equity_preserves_price_and_quantity_increments() {
    let equity = parse_equity(&asset(), 42).unwrap();
    assert_eq!(equity.instrument_id, "AAPL.ALPACA");
    assert_eq!(equity.raw_symbol, "AAPL");
    assert_eq!(equity.price_increment, dec(1, 2));
    assert_eq!(equity.price_precision, 2);
    assert_eq!(equity.min_quantity, dec(1, 6));
    assert_eq!(equity.size_precision, 6);
    assert_eq!(equity.size_increment, dec(1, 6));
    assert_eq!(equity.lot_size, 100);
    assert_eq!(equity.ts_event, 42);
    assert_eq!(equity.ts_init, 42);
    assert!(matches!(info(&equity, "quantity_scope"), InfoValue::Text(s) if s == "fractional_shares"));
    assert!(matches!(info(&equity, "borrow_status"), InfoValue::Text(s) if s == "easy_to_borrow"));
    assert!(matches!(info(&equity, "easy_to_borrow"), InfoValue::Flag(true)));
    assert!(matches!(info(&equity, "cusip"), InfoValue::Text(s) if s == "037833100"));
    assert!(matches!(info(&equity, "margin_requirement_long"), InfoValue::Decimal(d) if *d == dec(30, 0)));
    assert!(matches!(info(&equity, "margin_requirement_short"), InfoValue::Decimal(d) if *d == dec(35, 0)));
}

#[test]
fn test_parse_non_fractionable_equity_keeps_whole_share_increment() {
    let mut asset = asset();
    asset.fractionable = false;
    let equity = parse_equity(&asset, 42).unwrap();
    assert!(equity.min_quantity.same_value(&dec(1, 0)));
    assert_eq!(equity.size_precision, 0);
    assert!(equity.size_increment.same_value(&dec(1, 0)));
    assert!(matches!(info(&equity, "quantity_scope"), InfoValue::Text(s) if s == "whole_shares_only"));
}

#[test]
fn test_fractional_increment_is_preserved_as_metadata() {
    let mut asset = asset();
    asset.min_trade_increment = Some(dec(1, 6));
    let equity = parse_equity(&asset, 42).unwrap();
    assert!(matches!(info(&equity, "min_trade_increment"), InfoValue::Decimal(d) if *d == dec(1, 6)));
}

#[test]
fn test_legacy_easy_to_borrow_is_used_when_borrow_status_is_absent() {
    let mut asset = asset();
    asset.borrow_status = None;
    asset.easy_to_borrow = Some(true);
    let equity = parse_equity(&asset, 42).unwrap();
    assert!(matches!(info(&equity, "borrow_status"), InfoValue::Null));
    assert!(matches!(info(&equity, "easy_to_borrow"), InfoValue::Flag(true)));
}

#[test]
fn test_official_equity_payload_without_crypto_only_increments_uses_protocol_resolution() {
    let mut asset = asset();
    asset.price_increment = None;
    asset.min_order_size = None;
    asset.min_trade_increment = None;
    let equity = parse_equity(&asset, 42).unwrap();
    assert_eq!(equity.price_increment, dec(1, 4));
    assert_eq!(equity.price_precision, 4);
    assert_eq!(equity.size_increment, dec(1, 9));
    assert_eq!(equity.min_quantity, dec(1, 9));
    assert!(matches!(info(&equity, "increment_source"), InfoValue::Text(s) if s == "alpaca_equity_protocol"));
}

#[test]
fn test_invalid_venue_provided_increment_is_rejected() {
    let mut asset = asset();
    asset.price_increment = Some(dec(0, 0));
    assert_eq!(parse_equity(&asset, 42).err(), Some(AssetRejection::NonPositivePriceIncrement));
    let mut crypto = self::asset();
    crypto.asset_class = AlpacaAssetClass::Crypto;
    assert_eq!(parse_equity(&crypto, 42).err(), Some(AssetRejection::UnsupportedAssetClass));
}

#[test]
fn test_increments_beyond_fixed_precision_are_rejected() {
    let mut asset = asset();
    asset.price_increment = Some(dec(1, 19));
    assert_eq!(parse_equity(&asset, 42).err(), Some(AssetRejection::PriceIncrementNotRepresentable));
    let mut asset = self::asset();
    asset.min_trade_increment = Some(dec(1, 19));
    assert_eq!(parse_equity(&asset, 42).err(), Some(AssetRejection::SizeIncrementNotRepresentable));
    let mut asset = self::asset();
    asset.min_order_size = Some(dec(1, 19));
    assert_eq!(parse_equity(&asset, 42).err(), Some(AssetRejection::MinQuantityNotRepresentable));
    // A trailing zero is normalized away before the conversion.
    let mut asset = self::asset();
    asset.price_increment = Some(dec(10, 3));
    assert_eq!(parse_equity(&asset, 7).unwrap().price_precision, 2);
}
