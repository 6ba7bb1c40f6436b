use vstd::prelude::*;
use vstd::string::*;

use crate::common::text::{
    blank, has_surrounding_white_space, is_blank, split_items, str_eq, surrounding_white_space,
    contains_char, views,
};
use crate::requests::parsing::{jiff_civil_date, jiff_timestamp_nanos, parse_timestamp};
use crate::common::enums::AlpacaDataFeed;
use crate::requests::validation::{
    historical_range, validate_asof, validate_historical_request, MAX_HISTORICAL_ITEMS,
    no_duplicate_texts, opt_text, spec_join_option_symbols, spec_join_unique_symbols,
    spec_option_strikes, valid_csv, valid_equity_symbol, csv_ok, join_option_symbols,
    join_unique_symbols, validate_equity_symbol, validate_option_date, validate_option_strikes,
    validate_option_type, validate_option_updated_since, RequestError,
};

verus! {

/// The most option-chain snapshots one request may collect.
pub const MAX_OPTION_CHAIN_ITEMS: usize = 100_000;

/// The most option snapshots one request may collect.
pub const MAX_OPTION_SNAPSHOT_ITEMS: usize = 100;

/// The most option contracts one request may collect.
pub const MAX_OPTION_CONTRACT_ITEMS: usize = 1_000_000;

/// The most news articles, activities or fills one request may collect.
pub const MAX_LISTED_ITEMS: usize = 100_000;

/// Why the parameters of a reference-data or account request are refused.
#[derive(Clone, Debug)]
pub enum FilterError {
    /// A shared symbol, option or date check failed.
    Invalid(RequestError),
    OptionFeed,
    OptionChainMaxItems,
    OptionSnapshotMaxItems,
    MostActivesRanking,
    MostActivesTop,
    MarketMoversTop,
    ConditionTickType,
    ConditionTape,
    AssetKey,
    AssetStatus,
    Exchange,
    EmptyAttributes,
    UnsupportedAttribute,
    DuplicateAttributes,
    OptionContractStatus,
    OptionStyle,
    OptionContractMaxItems,
    NewsSort,
    NewsMaxItems,
    NewsSymbols,
    InvalidStart,
    InvalidEnd,
    StartNotBeforeEnd,
    ActivityPageSize,
    ActivityMaxItems,
    FillMaxItems,
    /// An order id that is blank or has white space at either end (carries its label).
    OrderKey { label: String },
}

pub open spec fn option_type_ok(v: Option<&str>) -> bool {
    v matches Some(t) ==> (t@ == "call"@ || t@ == "put"@)
}

pub open spec fn option_date_ok(v: Option<&str>) -> bool {
    v matches Some(d) ==> jiff_civil_date(d@) is Some
}

pub open spec fn updated_since_ok(v: Option<&str>) -> bool {
    v matches Some(t) ==> (jiff_timestamp_nanos(t@) is Some || jiff_civil_date(t@) is Some)
}

pub open spec fn option_feed_ok(feed: Seq<char>) -> bool {
    feed == "indicative"@ || feed == "opra"@
}

/// Option market data comes from the `indicative` or the `opra` feed.
pub fn check_option_feed(feed: &str) -> (r: Result<(), FilterError>)
    ensures
        r is Ok <==> option_feed_ok(feed@),
        r matches Err(e) ==> e is OptionFeed,
{
    if !(str_eq(feed, "indicative") || str_eq(feed, "opra")) {
        return Err(FilterError::OptionFeed);
    }
    Ok(())
}

fn invalid<T>(r: Result<T, RequestError>) -> (out: Result<T, FilterError>)
    ensures
        r matches Ok(v) ==> out == Ok::<T, FilterError>(v),
        r matches Err(e) ==> out == Err::<T, FilterError>(FilterError::Invalid(e)),
{
    match r {
        Ok(v) => Ok(v),
        Err(e) => Err(FilterError::Invalid(e)),
    }
}

/// The parameters of an option-chain request.
pub struct OptionChainFilter<'a> {
    pub underlying_symbol: &'a str,
    pub feed: &'a str,
    pub option_type: Option<&'a str>,
    pub strike_price_gte: Option<&'a str>,
    pub strike_price_lte: Option<&'a str>,
    pub expiration_date: Option<&'a str>,
    pub expiration_date_gte: Option<&'a str>,
    pub expiration_date_lte: Option<&'a str>,
    pub root_symbol: Option<&'a str>,
    pub updated_since: Option<&'a str>,
    pub max_items: usize,
}

/// What an option-chain request must satisfy, in the order the checks are made.
pub open spec fn option_chain_ok(f: OptionChainFilter) -> bool {
    &&& valid_equity_symbol(f.underlying_symbol@)
    &&& option_feed_ok(f.feed@)
    &&& option_type_ok(f.option_type)
    &&& spec_option_strikes(opt_text(f.strike_price_gte), opt_text(f.strike_price_lte)) is Ok
    &&& option_date_ok(f.expiration_date)
    &&& option_date_ok(f.expiration_date_gte)
    &&& option_date_ok(f.expiration_date_lte)
    &&& 1 <= f.max_items <= MAX_OPTION_CHAIN_ITEMS
    &&& updated_since_ok(f.updated_since)
    &&& (f.root_symbol matches Some(s) ==> valid_equity_symbol(s@))
}

/// Checks an option-chain request.
pub fn check_option_chain(f: &OptionChainFilter) -> (r: Result<(), FilterError>)
    ensures
        r is Ok <==> option_chain_ok(*f),
        !valid_equity_symbol(f.underlying_symbol@) ==> r matches Err(
            FilterError::Invalid(RequestError::InvalidSymbol),
        ),
        valid_equity_symbol(f.underlying_symbol@) && !option_feed_ok(f.feed@) ==> r matches Err(
            FilterError::OptionFeed,
        ),
        valid_equity_symbol(f.underlying_symbol@) && option_feed_ok(f.feed@) && !option_type_ok(
            f.option_type,
        ) ==> r matches Err(FilterError::Invalid(RequestError::InvalidOptionType)),
{
    invalid(validate_equity_symbol(f.underlying_symbol))?;
    check_option_feed(f.feed)?;
    invalid(validate_option_type(f.option_type))?;
    invalid(validate_option_strikes(f.strike_price_gte, f.strike_price_lte))?;
    invalid(validate_option_date(f.expiration_date, "expiration_date"))?;
    invalid(validate_option_date(f.expiration_date_gte, "expiration_date_gte"))?;
    invalid(validate_option_date(f.expiration_date_lte, "expiration_date_lte"))?;
    if f.max_items == 0 || f.max_items > MAX_OPTION_CHAIN_ITEMS {
        return Err(FilterError::OptionChainMaxItems);
    }
    invalid(validate_option_updated_since(f.updated_since))?;
    if let Some(s) = f.root_symbol {
        invalid(validate_equity_symbol(s))?;
    }
    Ok(())
}

/// Checks an option-snapshot request and joins its contracts.
pub fn check_option_snapshots(
    symbols: Vec<String>,
    feed: &str,
    updated_since: Option<&str>,
    max_items: usize,
) -> (r: Result<String, FilterError>)
    ensures
        r is Ok <==> (spec_join_option_symbols(views(symbols@)) is Some && option_feed_ok(feed@)
            && updated_since_ok(updated_since) && 1 <= max_items <= MAX_OPTION_SNAPSHOT_ITEMS),
        r matches Ok(s) ==> spec_join_option_symbols(views(symbols@)) == Some(s@),
        spec_join_option_symbols(views(symbols@)) is None ==> r matches Err(FilterError::Invalid(_)),
{
    let joined = invalid(join_option_symbols(symbols, "option snapshots"))?;
    check_option_feed(feed)?;
    invalid(validate_option_updated_since(updated_since))?;
    if max_items == 0 || max_items > MAX_OPTION_SNAPSHOT_ITEMS {
        return Err(FilterError::OptionSnapshotMaxItems);
    }
    Ok(joined)
}

/// The most-active screen ranks by `volume` or `trades` and lists 1 to 100 stocks.
pub fn check_most_actives(by: &str, top: u8) -> (r: Result<(), FilterError>)
    ensures
        !(by@ == "volume"@ || by@ == "trades"@) ==> r matches Err(FilterError::MostActivesRanking),
        (by@ == "volume"@ || by@ == "trades"@) && !(1 <= top <= 100) ==> r matches Err(
            FilterError::MostActivesTop,
        ),
        r is Ok <==> ((by@ == "volume"@ || by@ == "trades"@) && 1 <= top <= 100),
{
    if !(str_eq(by, "volume") || str_eq(by, "trades")) {
        return Err(FilterError::MostActivesRanking);
    }
    if top < 1 || top > 100 {
        return Err(FilterError::MostActivesTop);
    }
    Ok(())
}

/// The market-mover screen lists 1 to 50 stocks each way.
pub fn check_market_movers(top: u8) -> (r: Result<(), FilterError>)
    ensures
        r is Ok <==> 1 <= top <= 50,
        r matches Err(e) ==> e is MarketMoversTop,
{
    if top < 1 || top > 50 {
        return Err(FilterError::MarketMoversTop);
    }
    Ok(())
}

/// Condition codes exist for `trade` and `quote` ticks of tapes `A`, `B` and `C`.
pub fn check_condition_codes(tick_type: &str, tape: &str) -> (r: Result<(), FilterError>)
    ensures
        !(tick_type@ == "trade"@ || tick_type@ == "quote"@) ==> r matches Err(
            FilterError::ConditionTickType,
        ),
        (tick_type@ == "trade"@ || tick_type@ == "quote"@) && !(tape@ == "A"@ || tape@ == "B"@
            || tape@ == "C"@) ==> r matches Err(FilterError::ConditionTape),
        r is Ok <==> ((tick_type@ == "trade"@ || tick_type@ == "quote"@) && (tape@ == "A"@ || tape@
            == "B"@ || tape@ == "C"@)),
{
    if !(str_eq(tick_type, "trade") || str_eq(tick_type, "quote")) {
        return Err(FilterError::ConditionTickType);
    }
    if !(str_eq(tape, "A") || str_eq(tape, "B") || str_eq(tape, "C")) {
        return Err(FilterError::ConditionTape);
    }
    Ok(())
}

/// A symbol or asset id goes into a path: not blank, no white space at either end, no `/`.
pub fn check_asset_key(symbol_or_asset_id: &str) -> (r: Result<(), FilterError>)
    ensures
        r is Ok <==> !(is_blank(symbol_or_asset_id@) || has_surrounding_white_space(
            symbol_or_asset_id@,
        ) || symbol_or_asset_id@.contains('/')),
        r matches Err(e) ==> e is AssetKey,
{
    if blank(symbol_or_asset_id) || surrounding_white_space(symbol_or_asset_id) || contains_char(
        symbol_or_asset_id,
        '/',
    ) {
        return Err(FilterError::AssetKey);
    }
    Ok(())
}

/// The asset attributes the venue filters by.
pub open spec fn asset_attributes() -> Seq<Seq<char>> {
    seq![
        "ptp_no_exception"@,
        "ptp_with_exception"@,
        "ipo"@,
        "has_options"@,
        "options_late_close"@,
        "fractional_eh_enabled"@,
        "overnight_tradable"@,
        "overnight_halted"@,
    ]
}

fn is_asset_attribute(value: &str) -> (r: bool)
    ensures
        r == asset_attributes().contains(value@),
{
    let names: [&str; 8] = [
        "ptp_no_exception",
        "ptp_with_exception",
        "ipo",
        "has_options",
        "options_late_close",
        "fractional_eh_enabled",
        "overnight_tradable",
        "overnight_halted",
    ];
    proof {
        reveal_strlit("ptp_no_exception");
        reveal_strlit("ptp_with_exception");
        reveal_strlit("ipo");
        reveal_strlit("has_options");
        reveal_strlit("options_late_close");
        reveal_strlit("fractional_eh_enabled");
        reveal_strlit("overnight_tradable");
        reveal_strlit("overnight_halted");
        assert(forall|k: int| 0 <= k < 8 ==> #[trigger] names@[k]@ == asset_attributes()[k]);
    }
    let mut i: usize = 0;
    while i < 8
        invariant
            i <= 8,
            forall|k: int| 0 <= k < 8 ==> #[trigger] names@[k]@ == asset_attributes()[k],
            forall|k: int| 0 <= k < i ==> asset_attributes()[k] != value@,
        decreases 8 - i,
    {
        if str_eq(names[i], value) {
            assert(asset_attributes()[i as int] == value@);
            return true;
        }
        i = i + 1;
    }
    proof {
        if asset_attributes().contains(value@) {
            let k = choose|k: int| 0 <= k < 8 && asset_attributes()[k] == value@;
            assert(asset_attributes()[k] != value@);
        }
    }
    false
}

/// The joined attributes `a,b,...`.
pub open spec fn joined_attributes(s: Seq<Seq<char>>) -> Seq<char>
    decreases s.len(),
{
    if s.len() <= 1 {
        if s.len() == 1 {
            s[0]
        } else {
            seq![]
        }
    } else {
        joined_attributes(s.drop_last()) + seq![','] + s.last()
    }
}

fn join_attributes(values: &Vec<String>) -> (r: String)
    ensures
        r@ == joined_attributes(views(values@)),
{
    let mut out = String::new();
    let mut i: usize = 0;
    while i < values.len()
        invariant
            i <= values.len(),
            out@ == joined_attributes(views(values@).subrange(0, i as int)),
        decreases values.len() - i,
    {
        proof {
            let s = views(values@).subrange(0, i as int + 1);
            assert(s.drop_last() =~= views(values@).subrange(0, i as int));
            assert(s.last() == values@[i as int]@);
        }
        if i > 0 {
            out.append(",");
        } else {
            assert(views(values@).subrange(0, 0) =~= Seq::<Seq<char>>::empty());
        }
        out.append(values[i].as_str());
        proof {
            if i == 0 {
                assert(out@ =~= views(values@).subrange(0, 1)[0]);
            } else {
                reveal_strlit(",");
            }
        }
        i = i + 1;
    }
    assert(views(values@).subrange(0, values@.len() as int) =~= views(values@));
    out
}

/// What an asset-master request must satisfy, in the order the checks are made.
pub open spec fn assets_ok(status: Seq<char>, exchange: Option<&str>, attributes: Option<Seq<Seq<char>>>) -> bool {
    &&& (status == "active"@ || status == "inactive"@ || status == "all"@)
    &&& (exchange matches Some(x) ==> !(is_blank(x@) || has_surrounding_white_space(x@)))
    &&& (attributes matches Some(a) ==> a.len() > 0 && (forall|i: int|
        0 <= i < a.len() ==> asset_attributes().contains(#[trigger] a[i])) && no_duplicate_texts(
        a,
    ))
}

pub open spec fn opt_views(v: Option<Vec<String>>) -> Option<Seq<Seq<char>>> {
    match v {
        Some(x) => Some(views(x@)),
        None => None,
    }
}

/// Checks an asset-master request and joins its attribute filter.
pub fn check_assets(status: &str, exchange: Option<&str>, attributes: &Option<Vec<String>>) -> (r:
    Result<Option<String>, FilterError>)
    ensures
        r is Ok <==> assets_ok(status@, exchange, opt_views(*attributes)),
        r matches Ok(j) ==> (match *attributes {
            Some(a) => j matches Some(s) && s@ == joined_attributes(views(a@)),
            None => j is None,
        }),
        !(status@ == "active"@ || status@ == "inactive"@ || status@ == "all"@) ==> r matches Err(
            FilterError::AssetStatus,
        ),
{
    if !(str_eq(status, "active") || str_eq(status, "inactive") || str_eq(status, "all")) {
        return Err(FilterError::AssetStatus);
    }
    if let Some(x) = exchange {
        if blank(x) || surrounding_white_space(x) {
            return Err(FilterError::Exchange);
        }
    }
    match attributes {
        None => Ok(None),
        Some(values) => {
            if values.len() == 0 {
                return Err(FilterError::EmptyAttributes);
            }
            let ghost s = views(values@);
            let mut i: usize = 0;
            while i < values.len()
                invariant
                    i <= values.len(),
                    s == views(values@),
                    (status@ == "active"@ || status@ == "inactive"@ || status@ == "all"@),
                    (exchange matches Some(x) ==> !(is_blank(x@) || has_surrounding_white_space(x@))),
                    *attributes == Some(*values),
                    values.len() > 0,
                    forall|k: int| 0 <= k < i ==> asset_attributes().contains(#[trigger] s[k]),
                decreases values.len() - i,
            {
                if !is_asset_attribute(values[i].as_str()) {
                    assert(!asset_attributes().contains(s[i as int]));
                    return Err(FilterError::UnsupportedAttribute);
                }
                i = i + 1;
            }
            let mut j: usize = 0;
            while j < values.len()
                invariant
                    j <= values.len(),
                    s == views(values@),
                    forall|k: int| 0 <= k < values.len() ==> asset_attributes().contains(#[trigger] s[k]),
                    (status@ == "active"@ || status@ == "inactive"@ || status@ == "all"@),
                    (exchange matches Some(x) ==> !(is_blank(x@) || has_surrounding_white_space(x@))),
                    *attributes == Some(*values),
                    values.len() > 0,
                    forall|a: int, b: int| 0 <= a < b < values.len() && a < j ==> s[a] != s[b],
                decreases values.len() - j,
            {
                let mut k: usize = j + 1;
                while k < values.len()
                    invariant
                        j < values.len(),
                        j + 1 <= k <= values.len(),
                        s == views(values@),
                        forall|k: int| 0 <= k < values.len() ==> asset_attributes().contains(#[trigger] s[k]),
                        (status@ == "active"@ || status@ == "inactive"@ || status@ == "all"@),
                        (exchange matches Some(x) ==> !(is_blank(x@) || has_surrounding_white_space(x@))),
                        *attributes == Some(*values),
                        values.len() > 0,
                        forall|a: int, b: int| 0 <= a < b < values.len() && a < j ==> s[a] != s[b],
                        forall|b: int| j < b < k ==> s[j as int] != s[b],
                    decreases values.len() - k,
                {
                    if str_eq(values[j].as_str(), values[k].as_str()) {
                        assert(s[j as int] == s[k as int]);
                        return Err(FilterError::DuplicateAttributes);
                    }
                    k = k + 1;
                }
                j = j + 1;
            }
            Ok(Some(join_attributes(values)))
        },
    }
}

/// The parameters of an option-contract request.
pub struct OptionContractsFilter<'a> {
    pub status: &'a str,
    pub option_type: Option<&'a str>,
    pub style: Option<&'a str>,
    pub expiration_date: Option<&'a str>,
    pub expiration_date_gte: Option<&'a str>,
    pub expiration_date_lte: Option<&'a str>,
    pub root_symbol: Option<&'a str>,
    pub strike_price_gte: Option<&'a str>,
    pub strike_price_lte: Option<&'a str>,
    pub max_items: usize,
}

/// What an option-contract request must satisfy, in the order the checks are made; the
/// underlying symbols are joined after these checks.
pub open spec fn option_contracts_ok(f: OptionContractsFilter, underlying: Option<Seq<Seq<char>>>) -> bool {
    &&& (f.status@ == "active"@ || f.status@ == "inactive"@)
    &&& option_type_ok(f.option_type)
    &&& (f.style matches Some(s) ==> (s@ == "american"@ || s@ == "european"@))
    &&& option_date_ok(f.expiration_date)
    &&& option_date_ok(f.expiration_date_gte)
    &&& option_date_ok(f.expiration_date_lte)
    &&& spec_option_strikes(opt_text(f.strike_price_gte), opt_text(f.strike_price_lte)) is Ok
    &&& 1 <= f.max_items <= MAX_OPTION_CONTRACT_ITEMS
    &&& (underlying matches Some(u) ==> spec_join_unique_symbols(u) is Some)
    &&& (f.root_symbol matches Some(s) ==> valid_equity_symbol(s@))
}

/// Checks an option-contract request and joins its underlying symbols.
pub fn check_option_contracts(f: &OptionContractsFilter, underlying_symbols: Option<Vec<String>>) -> (r:
    Result<Option<String>, FilterError>)
    ensures
        r is Ok <==> option_contracts_ok(*f, opt_views(underlying_symbols)),
        r matches Ok(j) ==> (match underlying_symbols {
            Some(u) => j matches Some(s) && spec_join_unique_symbols(views(u@)) == Some(s@),
            None => j is None,
        }),
        !(f.status@ == "active"@ || f.status@ == "inactive"@) ==> r matches Err(
            FilterError::OptionContractStatus,
        ),
{
    if !(str_eq(f.status, "active") || str_eq(f.status, "inactive")) {
        return Err(FilterError::OptionContractStatus);
    }
    invalid(validate_option_type(f.option_type))?;
    if let Some(s) = f.style {
        if !(str_eq(s, "american") || str_eq(s, "european")) {
            return Err(FilterError::OptionStyle);
        }
    }
    invalid(validate_option_date(f.expiration_date, "expiration_date"))?;
    invalid(validate_option_date(f.expiration_date_gte, "expiration_date_gte"))?;
    invalid(validate_option_date(f.expiration_date_lte, "expiration_date_lte"))?;
    invalid(validate_option_strikes(f.strike_price_gte, f.strike_price_lte))?;
    if f.max_items == 0 || f.max_items > MAX_OPTION_CONTRACT_ITEMS {
        return Err(FilterError::OptionContractMaxItems);
    }
    let joined = match underlying_symbols {
        Some(u) => Some(invalid(join_unique_symbols(u, "option contracts"))?),
        None => None,
    };
    if let Some(s) = f.root_symbol {
        invalid(validate_equity_symbol(s))?;
    }
    Ok(joined)
}

pub open spec fn opt_time(v: Option<&str>) -> Option<Option<i128>> {
    match v {
        Some(t) => match jiff_timestamp_nanos(t@) {
            Some(n) => Some(Some(n)),
            None => None,
        },
        None => Some(None),
    }
}

/// A time range given as optional RFC 3339 texts: each parses, and a start precedes an end.
pub open spec fn spec_time_range(start: Option<&str>, end: Option<&str>) -> Result<
    (Option<i128>, Option<i128>),
    FilterError,
> {
    match (opt_time(start), opt_time(end)) {
        (None, _) => Err(FilterError::InvalidStart),
        (Some(_), None) => Err(FilterError::InvalidEnd),
        (Some(s), Some(e)) => if s matches Some(a) && e matches Some(b) && a >= b {
            Err(FilterError::StartNotBeforeEnd)
        } else {
            Ok((s, e))
        },
    }
}

fn parse_opt_time(v: Option<&str>) -> (r: Option<Option<i128>>)
    ensures
        r == opt_time(v),
{
    match v {
        Some(t) => match parse_timestamp(t) {
            Some(n) => Some(Some(n)),
            None => None,
        },
        None => Some(None),
    }
}

/// Parses an optional time range.
pub fn check_time_range(start: Option<&str>, end: Option<&str>) -> (r: Result<
    (Option<i128>, Option<i128>),
    FilterError,
>)
    ensures
        match (r, spec_time_range(start, end)) {
            (Ok(a), Ok(b)) => a == b,
            (Err(FilterError::InvalidStart), Err(FilterError::InvalidStart)) => true,
            (Err(FilterError::InvalidEnd), Err(FilterError::InvalidEnd)) => true,
            (Err(FilterError::StartNotBeforeEnd), Err(FilterError::StartNotBeforeEnd)) => true,
            _ => false,
        },
{
    let s = match parse_opt_time(start) {
        Some(s) => s,
        None => {
            return Err(FilterError::InvalidStart);
        },
    };
    let e = match parse_opt_time(end) {
        Some(e) => e,
        None => {
            return Err(FilterError::InvalidEnd);
        },
    };
    if let (Some(a), Some(b)) = (s, e) {
        if a >= b {
            return Err(FilterError::StartNotBeforeEnd);
        }
    }
    Ok((s, e))
}

/// News symbols: a non-empty list without empty items or items with white space at either end.
pub open spec fn news_symbols_ok(v: Option<&str>) -> bool {
    v matches Some(s) ==> valid_csv(s@)
}

/// Checks a news request: the sort order, 1 to 100,000 articles, the symbol list and the time
/// range, in that order.
pub fn check_news(sort: &str, max_items: usize, symbols: Option<&str>, start: Option<&str>, end:
    Option<&str>) -> (r: Result<(Option<i128>, Option<i128>), FilterError>)
    ensures
        !(sort@ == "asc"@ || sort@ == "desc"@) ==> r matches Err(FilterError::NewsSort),
        (sort@ == "asc"@ || sort@ == "desc"@) && !(1 <= max_items <= MAX_LISTED_ITEMS) ==> r matches Err(
            FilterError::NewsMaxItems,
        ),
        (sort@ == "asc"@ || sort@ == "desc"@) && 1 <= max_items <= MAX_LISTED_ITEMS
            && !news_symbols_ok(symbols) ==> r matches Err(FilterError::NewsSymbols),
        (sort@ == "asc"@ || sort@ == "desc"@) && 1 <= max_items <= MAX_LISTED_ITEMS
            && news_symbols_ok(symbols) ==> match (r, spec_time_range(start, end)) {
            (Ok(a), Ok(b)) => a == b,
            (Err(FilterError::InvalidStart), Err(FilterError::InvalidStart)) => true,
            (Err(FilterError::InvalidEnd), Err(FilterError::InvalidEnd)) => true,
            (Err(FilterError::StartNotBeforeEnd), Err(FilterError::StartNotBeforeEnd)) => true,
            _ => false,
        },
{
    if !(str_eq(sort, "asc") || str_eq(sort, "desc")) {
        return Err(FilterError::NewsSort);
    }
    if max_items == 0 || max_items > MAX_LISTED_ITEMS {
        return Err(FilterError::NewsMaxItems);
    }
    if let Some(s) = symbols {
        if !csv_ok(s) {
            return Err(FilterError::NewsSymbols);
        }
    }
    check_time_range(start, end)
}

/// An order id or client order id: not blank and no white space at either end.
pub fn check_order_key(label: &str, value: &str) -> (r: Result<(), FilterError>)
    ensures
        r is Ok <==> !(is_blank(value@) || has_surrounding_white_space(value@)),
        r matches Err(e) ==> (e matches FilterError::OrderKey { label: l } && l@ == label@),
{
    if blank(value) || surrounding_white_space(value) {
        return Err(FilterError::OrderKey { label: String::from_str(label) });
    }
    Ok(())
}

/// Checks an activity page request: 1 to 100 per page and the time range.
pub fn check_activity_page(page_size: u8, start: Option<&str>, end: Option<&str>) -> (r: Result<
    (Option<i128>, Option<i128>),
    FilterError,
>)
    ensures
        !(1 <= page_size <= 100) ==> r matches Err(FilterError::ActivityPageSize),
        1 <= page_size <= 100 ==> match (r, spec_time_range(start, end)) {
            (Ok(a), Ok(b)) => a == b,
            (Err(FilterError::InvalidStart), Err(FilterError::InvalidStart)) => true,
            (Err(FilterError::InvalidEnd), Err(FilterError::InvalidEnd)) => true,
            (Err(FilterError::StartNotBeforeEnd), Err(FilterError::StartNotBeforeEnd)) => true,
            _ => false,
        },
{
    if page_size < 1 || page_size > 100 {
        return Err(FilterError::ActivityPageSize);
    }
    check_time_range(start, end)
}

/// Checks a request for all activities: 1 to 100,000 items and the time range.
pub fn check_all_activities(max_items: usize, start: Option<&str>, end: Option<&str>) -> (r: Result<
    (Option<i128>, Option<i128>),
    FilterError,
>)
    ensures
        !(1 <= max_items <= MAX_LISTED_ITEMS) ==> r matches Err(FilterError::ActivityMaxItems),
        1 <= max_items <= MAX_LISTED_ITEMS ==> match (r, spec_time_range(start, end)) {
            (Ok(a), Ok(b)) => a == b,
            (Err(FilterError::InvalidStart), Err(FilterError::InvalidStart)) => true,
            (Err(FilterError::InvalidEnd), Err(FilterError::InvalidEnd)) => true,
            (Err(FilterError::StartNotBeforeEnd), Err(FilterError::StartNotBeforeEnd)) => true,
            _ => false,
        },
{
    if max_items == 0 || max_items > MAX_LISTED_ITEMS {
        return Err(FilterError::ActivityMaxItems);
    }
    check_time_range(start, end)
}

/// Checks a fill request: 1 to 100,000 fills, a clean order id when one is given, and the
/// time range.
pub fn check_fills(max_items: usize, order_id: Option<&str>, start: Option<&str>, end: Option<&str>) -> (r:
    Result<(Option<i128>, Option<i128>), FilterError>)
    ensures
        !(1 <= max_items <= MAX_LISTED_ITEMS) ==> r matches Err(FilterError::FillMaxItems),
        1 <= max_items <= MAX_LISTED_ITEMS && (order_id matches Some(o) && (is_blank(o@)
            || has_surrounding_white_space(o@))) ==> r matches Err(FilterError::OrderKey { .. }),
        1 <= max_items <= MAX_LISTED_ITEMS && !(order_id matches Some(o) && (is_blank(o@)
            || has_surrounding_white_space(o@))) ==> match (r, spec_time_range(start, end)) {
            (Ok(a), Ok(b)) => a == b,
            (Err(FilterError::InvalidStart), Err(FilterError::InvalidStart)) => true,
            (Err(FilterError::InvalidEnd), Err(FilterError::InvalidEnd)) => true,
            (Err(FilterError::StartNotBeforeEnd), Err(FilterError::StartNotBeforeEnd)) => true,
            _ => false,
        },
{
    if max_items == 0 || max_items > MAX_LISTED_ITEMS {
        return Err(FilterError::FillMaxItems);
    }
    if let Some(o) = order_id {
        check_order_key("order_id", o)?;
    }
    check_time_range(start, end)
}

/// Checks an auction request: the symbols are joined (non-empty, valid, distinct), then 1 to
/// 1,000,000 items, the `asof` date and the range are checked; auctions are served from SIP.
pub fn check_auctions(symbols: Vec<String>, max_items: usize, asof: Option<&str>, start: &str, end:
    &str) -> (r: Result<(String, (i128, i128)), FilterError>)
    ensures
        r matches Ok((j, (s, e))) ==> ({
            &&& spec_join_unique_symbols(views(symbols@)) == Some(j@)
            &&& 1 <= max_items <= MAX_HISTORICAL_ITEMS
            &&& (asof matches Some(v) ==> (v@ == "-"@ || jiff_civil_date(v@) is Some))
            &&& jiff_timestamp_nanos(start@) == Some(s) && jiff_timestamp_nanos(end@) == Some(e)
            &&& s < e
        }),
        spec_join_unique_symbols(views(symbols@)) is None ==> r matches Err(FilterError::Invalid(_)),
        spec_join_unique_symbols(views(symbols@)) is Some && !(1 <= max_items <= MAX_HISTORICAL_ITEMS)
            ==> r matches Err(FilterError::Invalid(RequestError::HistoricalMaxItems)),
        spec_join_unique_symbols(views(symbols@)) is Some && 1 <= max_items <= MAX_HISTORICAL_ITEMS
            && (asof matches Some(v) ==> (v@ == "-"@ || jiff_civil_date(v@) is Some))
            && jiff_timestamp_nanos(start@) is Some && jiff_timestamp_nanos(end@) is Some
            && jiff_timestamp_nanos(start@)->0 < jiff_timestamp_nanos(end@)->0 ==> r is Ok,
{
    let first = if symbols.len() > 0 {
        symbols[0].clone()
    } else {
        String::new()
    };
    let ghost v = views(symbols@);
    let joined = invalid(join_unique_symbols(symbols, "historical auctions"))?;
    proof {
        assert(v.len() > 0);
        assert(first@ == v[0]);
        if !valid_equity_symbol(v[0]) {
            assert(exists|i: int| 0 <= i < v.len() && !valid_equity_symbol(#[trigger] v[i]));
        }
    }
    invalid(validate_historical_request(first.as_str(), AlpacaDataFeed::Sip, max_items))?;
    invalid(validate_asof(asof))?;
    let range = invalid(historical_range(start, end))?;
    Ok((joined, range))
}

} // verus!
