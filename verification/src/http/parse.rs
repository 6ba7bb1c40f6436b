use vstd::prelude::*;

use crate::common::info::{info_value_view, info_view, push_entry, InfoValue, InfoView};
use crate::common::text::views;
use crate::decimal::{ExactDecimal, MAX_DIGITS, MAX_SCALE};
use crate::http::models::{AlpacaAsset, AlpacaAssetClass, AlpacaAssetStatus};

verus! {

/// Lot size of every US equity.
pub const EQUITY_LOT_SIZE: u64 = 100;

/// Why an asset cannot become an instrument.
#[derive(Clone, Copy, Debug, PartialEq, Eq, Structural)]
pub enum AssetRejection {
    UnsupportedAssetClass,
    NonPositivePriceIncrement,
    NonPositiveMinTradeIncrement,
    NonPositiveMinOrderSize,
    /// The price increment is no nautilus `Price` (too many decimals or out of range).
    PriceIncrementNotRepresentable,
    /// The size increment is no nautilus `Quantity`.
    SizeIncrementNotRepresentable,
    /// The minimum quantity is no nautilus `Quantity`.
    MinQuantityNotRepresentable,
}

/// Whether `nautilus_model::types::Price::from_decimal` accepts the decimal
/// `mantissa * 10^-scale`.
pub uninterp spec fn price_accepts(mantissa: i128, scale: u32) -> bool;

/// Whether `nautilus_model::types::Quantity::from_decimal` accepts the decimal
/// `mantissa * 10^-scale`.
pub uninterp spec fn quantity_accepts(mantissa: i128, scale: u32) -> bool;

/// Asks `Price::from_decimal` whether it accepts the decimal.
///
/// The price takes the decimal's scale as its precision, so it refuses a scale above the
/// fixed-point precision of the build (at most 18) and a value out of its range. The contract
/// claims the first refusal; where exactly the range ends is left to the name.
#[verifier::external_body]
fn nautilus_price_accepts(mantissa: i128, scale: u32) -> (r: bool)
    requires
        scale <= MAX_SCALE,
        -(MAX_DIGITS as int) <= mantissa <= MAX_DIGITS,
    ensures
        r == price_accepts(mantissa, scale),
        scale > 18 ==> !r,
{
    nautilus_model::types::Price::from_decimal(
        rust_decimal::Decimal::from_i128_with_scale(mantissa, scale),
    ).is_ok()
}

/// Asks `Quantity::from_decimal` whether it accepts the decimal.
///
/// As for prices, a scale above the build's fixed-point precision (at most 18) is refused, and
/// so is a negative value; the upper end of the range is left to the name.
#[verifier::external_body]
fn nautilus_quantity_accepts(mantissa: i128, scale: u32) -> (r: bool)
    requires
        scale <= MAX_SCALE,
        -(MAX_DIGITS as int) <= mantissa <= MAX_DIGITS,
    ensures
        r == quantity_accepts(mantissa, scale),
        scale > 18 ==> !r,
        mantissa < 0 ==> !r,
{
    nautilus_model::types::Quantity::from_decimal(
        rust_decimal::Decimal::from_i128_with_scale(mantissa, scale),
    ).is_ok()
}

/// The instrument definition of a US equity.
pub struct EquityDefinition {
    /// `SYMBOL.ALPACA`.
    pub instrument_id: String,
    pub raw_symbol: String,
    pub price_increment: ExactDecimal,
    pub price_precision: u8,
    pub size_increment: ExactDecimal,
    pub size_precision: u8,
    pub lot_size: u64,
    pub min_quantity: ExactDecimal,
    pub info: Vec<(String, InfoValue)>,
    /// Nanoseconds since the epoch.
    pub ts_event: u64,
    pub ts_init: u64,
}

/// `10^-4`, the equity price resolution: four decimals below one dollar.
pub open spec fn equity_price_resolution() -> ExactDecimal {
    ExactDecimal { negative: false, digits: 1, scale: 4 }
}

/// `10^-9`, the finest fractional share quantity.
pub open spec fn fractional_share_resolution() -> ExactDecimal {
    ExactDecimal { negative: false, digits: 1, scale: 9 }
}

pub open spec fn one_share() -> ExactDecimal {
    ExactDecimal { negative: false, digits: 1, scale: 0 }
}

/// The price increment: the asset's own, else the protocol resolution.
pub open spec fn spec_price_increment(a: AlpacaAsset) -> ExactDecimal {
    match a.price_increment {
        Some(p) => p,
        None => equity_price_resolution(),
    }
}

/// The size increment before normalization: one share for whole-share assets.
pub open spec fn spec_size_increment(a: AlpacaAsset) -> ExactDecimal {
    if a.fractionable {
        match a.min_trade_increment {
            Some(s) => s,
            None => fractional_share_resolution(),
        }
    } else {
        one_share()
    }
}

/// The minimum quantity: the asset's minimum order size, else the size increment.
pub open spec fn spec_min_quantity(a: AlpacaAsset) -> ExactDecimal {
    if a.fractionable {
        match a.min_order_size {
            Some(m) => m,
            None => spec_size_increment(a).spec_normalize(),
        }
    } else {
        one_share()
    }
}

pub open spec fn status_name(s: AlpacaAssetStatus) -> Seq<char> {
    match s {
        AlpacaAssetStatus::Active => "Active"@,
        AlpacaAssetStatus::Inactive => "Inactive"@,
        AlpacaAssetStatus::Unknown => "Unknown"@,
    }
}

pub open spec fn opt_text_view(s: Option<String>) -> InfoView {
    match s {
        Some(v) => InfoView::Text(v@),
        None => InfoView::Null,
    }
}

pub open spec fn opt_flag_view(b: Option<bool>) -> InfoView {
    match b {
        Some(v) => InfoView::Flag(v),
        None => InfoView::Null,
    }
}

pub open spec fn opt_decimal_view(d: Option<ExactDecimal>) -> InfoView {
    match d {
        Some(v) => InfoView::Decimal(v),
        None => InfoView::Null,
    }
}

/// Borrow status `easy_to_borrow` when the venue sends one, else the legacy flag.
pub open spec fn spec_easy_to_borrow(a: AlpacaAsset) -> Option<bool> {
    match a.borrow_status {
        Some(s) => Some(s@ == "easy_to_borrow"@),
        None => a.easy_to_borrow,
    }
}

/// The metadata published with an equity, in insertion order.
pub open spec fn spec_asset_info(a: AlpacaAsset) -> Seq<(Seq<char>, InfoView)> {
    seq![
        ("alpaca_asset_id"@, InfoView::Text(a.id@)),
        ("name"@, InfoView::Text(a.name@)),
        ("exchange"@, InfoView::Text(a.exchange@)),
        ("status"@, InfoView::Text(status_name(a.status))),
        ("tradable"@, InfoView::Flag(a.tradable)),
        ("marginable"@, InfoView::Flag(a.marginable)),
        ("shortable"@, InfoView::Flag(a.shortable)),
        ("borrow_status"@, opt_text_view(a.borrow_status)),
        ("easy_to_borrow"@, opt_flag_view(spec_easy_to_borrow(a))),
        ("fractionable"@, InfoView::Flag(a.fractionable)),
        ("cusip"@, opt_text_view(a.cusip)),
        ("margin_requirement_long"@, opt_decimal_view(a.margin_requirement_long)),
        ("margin_requirement_short"@, opt_decimal_view(a.margin_requirement_short)),
        ("maintenance_margin_requirement"@, opt_decimal_view(a.maintenance_margin_requirement)),
        ("min_order_size"@, opt_decimal_view(a.min_order_size)),
        ("min_trade_increment"@, opt_decimal_view(a.min_trade_increment)),
        (
            "increment_source"@,
            InfoView::Text(
                if a.price_increment is Some || a.min_trade_increment is Some {
                    "asset_payload"@
                } else {
                    "alpaca_equity_protocol"@
                },
            ),
        ),
        (
            "quantity_scope"@,
            InfoView::Text(
                if a.fractionable {
                    "fractional_shares"@
                } else {
                    "whole_shares_only"@
                },
            ),
        ),
        ("attributes"@, InfoView::TextList(views(a.attributes@))),
    ]
}

/// The equity definition of an asset, or the first check it fails.
pub open spec fn spec_parse_equity(a: AlpacaAsset) -> Result<
    (ExactDecimal, ExactDecimal, ExactDecimal),
    AssetRejection,
> {
    if a.asset_class != AlpacaAssetClass::UsEquity {
        Err(AssetRejection::UnsupportedAssetClass)
    } else if !spec_price_increment(a).spec_is_positive() {
        Err(AssetRejection::NonPositivePriceIncrement)
    } else if !spec_size_increment(a).spec_is_positive() {
        Err(AssetRejection::NonPositiveMinTradeIncrement)
    } else if !spec_min_quantity(a).spec_is_positive() {
        Err(AssetRejection::NonPositiveMinOrderSize)
    } else if !price_accepts(
        spec_price_increment(a).spec_normalize().spec_mantissa(),
        spec_price_increment(a).spec_normalize().scale,
    ) {
        Err(AssetRejection::PriceIncrementNotRepresentable)
    } else if !quantity_accepts(
        spec_size_increment(a).spec_normalize().spec_mantissa(),
        spec_size_increment(a).spec_normalize().scale,
    ) {
        Err(AssetRejection::SizeIncrementNotRepresentable)
    } else if !quantity_accepts(spec_min_quantity(a).spec_mantissa(), spec_min_quantity(a).scale) {
        Err(AssetRejection::MinQuantityNotRepresentable)
    } else {
        Ok(
            (
                spec_price_increment(a).spec_normalize(),
                spec_size_increment(a).spec_normalize(),
                spec_min_quantity(a),
            ),
        )
    }
}

pub open spec fn asset_decimals_wf(a: AlpacaAsset) -> bool {
    &&& (a.price_increment matches Some(p) ==> p.wf())
    &&& (a.min_trade_increment matches Some(p) ==> p.wf())
    &&& (a.min_order_size matches Some(p) ==> p.wf())
}

fn opt_text(s: &Option<String>) -> (r: InfoValue)
    ensures
        info_value_view(r) == opt_text_view(*s),
{
    match s {
        Some(v) => InfoValue::Text(v.clone()),
        None => InfoValue::Null,
    }
}

fn opt_decimal(d: Option<ExactDecimal>) -> (r: InfoValue)
    ensures
        info_value_view(r) == opt_decimal_view(d),
{
    match d {
        Some(v) => InfoValue::Decimal(v),
        None => InfoValue::Null,
    }
}

fn clone_strings(v: &Vec<String>) -> (r: Vec<String>)
    ensures
        views(r@) == views(v@),
{
    let mut out: Vec<String> = Vec::new();
    let mut i: usize = 0;
    while i < v.len()
        invariant
            i <= v@.len(),
            views(out@) == views(v@).subrange(0, i as int),
        decreases v@.len() - i,
    {
        let ghost before = out@;
        let item = v[i].clone();
        assert(item@ == v@[i as int]@);
        out.push(item);
        assert(out@ == before.push(item));
        assert(views(out@) =~= views(before).push(item@));
        assert(views(out@) =~= views(v@).subrange(0, i + 1));
        i = i + 1;
    }
    assert(views(v@).subrange(0, v@.len() as int) =~= views(v@));
    out
}

fn push_identity(info: &mut Vec<(String, InfoValue)>, a: &AlpacaAsset)
    ensures
        info_view(final(info)@) == info_view(old(info)@) + spec_asset_info(*a).subrange(0, 7),
{
    let status = match a.status {
        AlpacaAssetStatus::Active => "Active",
        AlpacaAssetStatus::Inactive => "Inactive",
        AlpacaAssetStatus::Unknown => "Unknown",
    };
    push_entry(info, "alpaca_asset_id", InfoValue::Text(a.id.clone()));
    push_entry(info, "name", InfoValue::Text(a.name.clone()));
    push_entry(info, "exchange", InfoValue::Text(a.exchange.clone()));
    push_entry(info, "status", InfoValue::Text(String::from_str(status)));
    push_entry(info, "tradable", InfoValue::Flag(a.tradable));
    push_entry(info, "marginable", InfoValue::Flag(a.marginable));
    push_entry(info, "shortable", InfoValue::Flag(a.shortable));
    assert(info_view(info@) =~= info_view(old(info)@) + spec_asset_info(*a).subrange(0, 7));
}

fn push_borrow(info: &mut Vec<(String, InfoValue)>, a: &AlpacaAsset)
    ensures
        info_view(final(info)@) == info_view(old(info)@) + spec_asset_info(*a).subrange(7, 11),
{
    let easy_to_borrow = match &a.borrow_status {
        Some(s) => InfoValue::Flag(crate::common::text::str_eq(s.as_str(), "easy_to_borrow")),
        None => match a.easy_to_borrow {
            Some(b) => InfoValue::Flag(b),
            None => InfoValue::Null,
        },
    };
    push_entry(info, "borrow_status", opt_text(&a.borrow_status));
    push_entry(info, "easy_to_borrow", easy_to_borrow);
    push_entry(info, "fractionable", InfoValue::Flag(a.fractionable));
    push_entry(info, "cusip", opt_text(&a.cusip));
    assert(info_view(info@) =~= info_view(old(info)@) + spec_asset_info(*a).subrange(7, 11));
}

fn push_requirements(info: &mut Vec<(String, InfoValue)>, a: &AlpacaAsset)
    ensures
        info_view(final(info)@) == info_view(old(info)@) + spec_asset_info(*a).subrange(11, 16),
{
    push_entry(info, "margin_requirement_long", opt_decimal(a.margin_requirement_long));
    push_entry(info, "margin_requirement_short", opt_decimal(a.margin_requirement_short));
    push_entry(
        info,
        "maintenance_margin_requirement",
        opt_decimal(a.maintenance_margin_requirement),
    );
    push_entry(info, "min_order_size", opt_decimal(a.min_order_size));
    push_entry(info, "min_trade_increment", opt_decimal(a.min_trade_increment));
    assert(info_view(info@) =~= info_view(old(info)@) + spec_asset_info(*a).subrange(11, 16));
}

fn push_scope(info: &mut Vec<(String, InfoValue)>, a: &AlpacaAsset)
    ensures
        info_view(final(info)@) == info_view(old(info)@) + spec_asset_info(*a).subrange(16, 19),
{
    let source = if a.price_increment.is_some() || a.min_trade_increment.is_some() {
        "asset_payload"
    } else {
        "alpaca_equity_protocol"
    };
    let scope = if a.fractionable {
        "fractional_shares"
    } else {
        "whole_shares_only"
    };
    push_entry(info, "increment_source", InfoValue::Text(String::from_str(source)));
    push_entry(info, "quantity_scope", InfoValue::Text(String::from_str(scope)));
    push_entry(info, "attributes", InfoValue::TextList(clone_strings(&a.attributes)));
    assert(info_view(info@) =~= info_view(old(info)@) + spec_asset_info(*a).subrange(16, 19));
}

fn asset_info(a: &AlpacaAsset) -> (r: Vec<(String, InfoValue)>)
    ensures
        info_view(r@) == spec_asset_info(*a),
{
    let mut info: Vec<(String, InfoValue)> = Vec::new();
    push_identity(&mut info, a);
    push_borrow(&mut info, a);
    push_requirements(&mut info, a);
    push_scope(&mut info, a);
    let ghost full = spec_asset_info(*a);
    assert(full =~= full.subrange(0, 7) + full.subrange(7, 11) + full.subrange(11, 16)
        + full.subrange(16, 19));
    assert(info_view(info@) =~= full);
    info
}

/// Converts a US equity asset into its instrument definition, stamped with `ts_init` as both its
/// event and initialization time. The price increment defaults to the protocol's 0.0001 and the
/// size increment to 10^-9 for fractional assets and one share otherwise; both are normalized
/// and give the precisions. Increments and minimum quantity must be valid nautilus prices and
/// quantities.
pub fn parse_equity(asset: &AlpacaAsset, ts_init: u64) -> (r: Result<EquityDefinition, AssetRejection>)
    requires
        asset_decimals_wf(*asset),
    ensures
        match spec_parse_equity(*asset) {
            Ok((price_increment, size_increment, min_quantity)) => r matches Ok(d) && {
                &&& d.instrument_id@ == asset.symbol@ + ".ALPACA"@
                &&& d.raw_symbol@ == asset.symbol@
                &&& d.price_increment == price_increment
                &&& d.price_precision == price_increment.scale
                &&& d.size_increment == size_increment
                &&& d.size_precision == size_increment.scale
                &&& d.lot_size == EQUITY_LOT_SIZE
                &&& d.min_quantity == min_quantity
                &&& info_view(d.info@) == spec_asset_info(*asset)
                &&& d.ts_event == ts_init
                &&& d.ts_init == ts_init
            },
            Err(e) => r matches Err(x) && x == e,
        },
{
    if asset.asset_class != AlpacaAssetClass::UsEquity {
        return Err(AssetRejection::UnsupportedAssetClass);
    }
    let price_increment = match asset.price_increment {
        Some(p) => p,
        None => ExactDecimal::from_parts(false, 1, 4),
    };
    if !price_increment.is_positive() {
        return Err(AssetRejection::NonPositivePriceIncrement);
    }
    let normalized_price_increment = price_increment.normalize();
    let size_increment = if asset.fractionable {
        match asset.min_trade_increment {
            Some(s) => s,
            None => ExactDecimal::from_parts(false, 1, 9),
        }
    } else {
        ExactDecimal::from_parts(false, 1, 0)
    };
    if !size_increment.is_positive() {
        return Err(AssetRejection::NonPositiveMinTradeIncrement);
    }
    let size_increment = size_increment.normalize();
    let min_quantity = if asset.fractionable {
        match asset.min_order_size {
            Some(m) => m,
            None => size_increment,
        }
    } else {
        ExactDecimal::from_parts(false, 1, 0)
    };
    if !min_quantity.is_positive() {
        return Err(AssetRejection::NonPositiveMinOrderSize);
    }
    if !nautilus_price_accepts(normalized_price_increment.mantissa(), normalized_price_increment.scale) {
        return Err(AssetRejection::PriceIncrementNotRepresentable);
    }
    if !nautilus_quantity_accepts(size_increment.mantissa(), size_increment.scale) {
        return Err(AssetRejection::SizeIncrementNotRepresentable);
    }
    if !nautilus_quantity_accepts(min_quantity.mantissa(), min_quantity.scale) {
        return Err(AssetRejection::MinQuantityNotRepresentable);
    }
    let mut instrument_id = asset.symbol.clone();
    instrument_id.append(".ALPACA");
    Ok(
        EquityDefinition {
            instrument_id,
            raw_symbol: asset.symbol.clone(),
            price_increment: normalized_price_increment,
            price_precision: normalized_price_increment.scale as u8,
            size_increment,
            size_precision: size_increment.scale as u8,
            lot_size: EQUITY_LOT_SIZE,
            min_quantity,
            info: asset_info(asset),
            ts_event: ts_init,
            ts_init,
        },
    )
}

} // verus!
