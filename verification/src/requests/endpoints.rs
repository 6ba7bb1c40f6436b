use vstd::prelude::*;
use vstd::string::*;

use crate::common::text::{split_at_char, split_items, str_eq, upper_or_digit_only, views, all_upper_or_digit};
use crate::requests::parsing::{
    date_after, is_date_after, jiff_civil_date, jiff_timestamp_nanos, parse_civil_date,
    parse_timestamp,
};
use crate::requests::validation::{csv_ok, valid_csv};

verus! {

/// The most corporate actions one request may ask for.
pub const MAX_CORPORATE_ACTIONS: usize = 1_000_000;

/// The most orders one history request may ask for.
pub const MAX_ORDER_HISTORY: usize = 100_000;

/// Why an endpoint's parameters are refused.
#[derive(Clone, Copy, Debug, PartialEq, Eq, Structural)]
pub enum ParameterError {
    InvalidSymbols,
    InvalidCusips,
    InvalidActionTypes,
    InvalidIds,
    UnsupportedActionType,
    InvalidSort,
    InvalidRegion,
    InvalidDataQuality,
    MaxItemsOutOfRange,
    InvalidStart,
    InvalidEnd,
    StartAfterEnd,
    IdsWithFilters,
    InvalidPeriod,
    InvalidTimeframe,
    InvalidIntradayReporting,
    InvalidCashflowTypes,
    TooManyBounds,
    InvalidStatus,
}

/// The corporate-action types the venue serves.
pub open spec fn corporate_action_types() -> Seq<Seq<char>> {
    seq![
        "reverse_split"@,
        "forward_split"@,
        "unit_split"@,
        "cash_dividend"@,
        "stock_dividend"@,
        "spin_off"@,
        "cash_merger"@,
        "stock_merger"@,
        "stock_and_cash_merger"@,
        "redemption"@,
        "name_change"@,
        "worthless_removal"@,
        "rights_distribution"@,
        "partial_call"@,
        "reorganization"@,
        "capital_gains_distribution"@,
    ]
}

fn is_corporate_action_type(t: &str) -> (r: bool)
    ensures
        r == corporate_action_types().contains(t@),
{
    let names: [&str; 16] = [
        "reverse_split",
        "forward_split",
        "unit_split",
        "cash_dividend",
        "stock_dividend",
        "spin_off",
        "cash_merger",
        "stock_merger",
        "stock_and_cash_merger",
        "redemption",
        "name_change",
        "worthless_removal",
        "rights_distribution",
        "partial_call",
        "reorganization",
        "capital_gains_distribution",
    ];
    proof {
        assert(forall|i: int| 0 <= i < 16 ==> (#[trigger] names@[i])@ == corporate_action_types()[i]);
    }
    let mut i: usize = 0;
    while i < 16
        invariant
            i <= 16,
            forall|k: int| 0 <= k < 16 ==> (#[trigger] names@[k])@ == corporate_action_types()[k],
            forall|k: int| 0 <= k < i ==> corporate_action_types()[k] != t@,
        decreases 16 - i,
    {
        if str_eq(names[i], t) {
            assert(corporate_action_types()[i as int] == t@);
            return true;
        }
        i = i + 1;
    }
    false
}

pub open spec fn opt_text(s: Option<&str>) -> Option<Seq<char>> {
    match s {
        Some(v) => Some(v@),
        None => None,
    }
}

pub open spec fn csv_fails(v: Option<Seq<char>>) -> bool {
    v matches Some(x) && !valid_csv(x)
}

/// Every listed action type is one the venue serves.
pub open spec fn known_action_types(v: Seq<char>) -> bool {
    forall|i: int|
        0 <= i < split_items(v, ',').len() ==> corporate_action_types().contains(
            #[trigger] split_items(v, ',')[i],
        )
}

/// The filters of a corporate-action request.
pub struct CorporateActionsFilter<'a> {
    pub symbols: Option<&'a str>,
    pub cusips: Option<&'a str>,
    pub action_types: Option<&'a str>,
    pub start: Option<&'a str>,
    pub end: Option<&'a str>,
    pub ids: Option<&'a str>,
    pub region: Option<&'a str>,
    pub data_quality: Option<&'a str>,
    pub sort: &'a str,
    pub max_items: usize,
}

/// The first refusal of a corporate-action request, in the order the adapter checks.
pub open spec fn spec_corporate_actions(f: CorporateActionsFilter) -> Option<ParameterError> {
    if csv_fails(opt_text(f.symbols)) {
        Some(ParameterError::InvalidSymbols)
    } else if csv_fails(opt_text(f.cusips)) {
        Some(ParameterError::InvalidCusips)
    } else if csv_fails(opt_text(f.action_types)) {
        Some(ParameterError::InvalidActionTypes)
    } else if csv_fails(opt_text(f.ids)) {
        Some(ParameterError::InvalidIds)
    } else if f.action_types matches Some(t) && !known_action_types(t@) {
        Some(ParameterError::UnsupportedActionType)
    } else if !(f.sort@ == "asc"@ || f.sort@ == "desc"@) {
        Some(ParameterError::InvalidSort)
    } else if f.region matches Some(r) && !(r@ == "us"@ || r@ == "non_us"@ || r@ == "all"@) {
        Some(ParameterError::InvalidRegion)
    } else if f.data_quality matches Some(q) && !(q@ == "complete"@ || q@ == "all"@) {
        Some(ParameterError::InvalidDataQuality)
    } else if !(1 <= f.max_items <= MAX_CORPORATE_ACTIONS) {
        Some(ParameterError::MaxItemsOutOfRange)
    } else if f.start matches Some(s) && jiff_civil_date(s@) is None {
        Some(ParameterError::InvalidStart)
    } else if f.end matches Some(e) && jiff_civil_date(e@) is None {
        Some(ParameterError::InvalidEnd)
    } else if f.start matches Some(s) && f.end matches Some(e) && date_after(
        jiff_civil_date(s@)->0,
        jiff_civil_date(e@)->0,
    ) {
        Some(ParameterError::StartAfterEnd)
    } else if f.ids is Some && (f.symbols is Some || f.cusips is Some || f.action_types is Some
        || f.start is Some || f.end is Some || f.region is Some || f.data_quality is Some) {
        Some(ParameterError::IdsWithFilters)
    } else {
        None
    }
}

fn csv_check(v: Option<&str>) -> (r: bool)
    ensures
        r == csv_fails(opt_text(v)),
{
    match v {
        Some(x) => !csv_ok(x),
        None => false,
    }
}

fn action_types_known(v: &str) -> (r: bool)
    ensures
        r == known_action_types(v@),
{
    let items = split_at_char(v, ',');
    let mut i: usize = 0;
    while i < items.len()
        invariant
            i <= items@.len(),
            views(items@) == split_items(v@, ','),
            forall|k: int| 0 <= k < i ==> corporate_action_types().contains(#[trigger] views(items@)[k]),
        decreases items@.len() - i,
    {
        if !is_corporate_action_type(items[i].as_str()) {
            assert(!corporate_action_types().contains(views(items@)[i as int]));
            return false;
        }
        i = i + 1;
    }
    true
}

/// Checks the parameters of a corporate-action request: clean lists, known action types, a
/// sort, region and data quality the venue accepts, 1 to 1,000,000 items, ISO dates in order,
/// and ids never combined with other filters.
pub fn check_corporate_actions(f: &CorporateActionsFilter) -> (r: Result<(), ParameterError>)
    ensures
        match spec_corporate_actions(*f) {
            Some(e) => r == Err::<(), ParameterError>(e),
            None => r is Ok,
        },
{
    if csv_check(f.symbols) {
        return Err(ParameterError::InvalidSymbols);
    }
    if csv_check(f.cusips) {
        return Err(ParameterError::InvalidCusips);
    }
    if csv_check(f.action_types) {
        return Err(ParameterError::InvalidActionTypes);
    }
    if csv_check(f.ids) {
        return Err(ParameterError::InvalidIds);
    }
    if let Some(t) = f.action_types {
        if !action_types_known(t) {
            return Err(ParameterError::UnsupportedActionType);
        }
    }
    if !(str_eq(f.sort, "asc") || str_eq(f.sort, "desc")) {
        return Err(ParameterError::InvalidSort);
    }
    if let Some(region) = f.region {
        if !(str_eq(region, "us") || str_eq(region, "non_us") || str_eq(region, "all")) {
            return Err(ParameterError::InvalidRegion);
        }
    }
    if let Some(quality) = f.data_quality {
        if !(str_eq(quality, "complete") || str_eq(quality, "all")) {
            return Err(ParameterError::InvalidDataQuality);
        }
    }
    if f.max_items == 0 || f.max_items > MAX_CORPORATE_ACTIONS {
        return Err(ParameterError::MaxItemsOutOfRange);
    }
    let start = match f.start {
        Some(s) => match parse_civil_date(s) {
            Some(d) => Some(d),
            None => return Err(ParameterError::InvalidStart),
        },
        None => None,
    };
    let end = match f.end {
        Some(e) => match parse_civil_date(e) {
            Some(d) => Some(d),
            None => return Err(ParameterError::InvalidEnd),
        },
        None => None,
    };
    if let (Some(s), Some(e)) = (start, end) {
        if is_date_after(s, e) {
            return Err(ParameterError::StartAfterEnd);
        }
    }
    if f.ids.is_some() && (f.symbols.is_some() || f.cusips.is_some() || f.action_types.is_some()
        || f.start.is_some() || f.end.is_some() || f.region.is_some()
        || f.data_quality.is_some()) {
        return Err(ParameterError::IdsWithFilters);
    }
    Ok(())
}

/// The type of the actions of a response group: its name without a trailing `s`.
pub fn corporate_action_type(group: &str) -> (r: &str)
    ensures
        r@ == (if group@.len() > 0 && group@.last() == 's' {
            group@.drop_last()
        } else {
            group@
        }),
{
    let n = group.unicode_len();
    if n > 0 && group.get_char(n - 1) == 's' {
        group.substring_char(0, n - 1)
    } else {
        group.substring_char(0, n)
    }
}

/// The `u32` that `str::parse::<u32>` yields.
pub open spec fn spec_parse_u32(s: Seq<char>) -> Option<u32> {
    match crate::common::text::spec_parse_u64(s) {
        Some(v) => if v <= u32::MAX {
            Some(v as u32)
        } else {
            None
        },
        None => None,
    }
}

/// A portfolio period: a positive number followed by `D`, `W`, `M` or `A`.
pub open spec fn valid_period(v: Seq<char>) -> bool {
    &&& v.len() > 0
    &&& (v.last() == 'D' || v.last() == 'W' || v.last() == 'M' || v.last() == 'A')
    &&& spec_parse_u32(v.drop_last()) matches Some(n) && n > 0
}

/// A cashflow filter: a non-empty `,`-separated list of uppercase activity types.
pub open spec fn valid_cashflow_types(v: Seq<char>) -> bool {
    &&& v.len() > 0
    &&& forall|i: int|
        0 <= i < split_items(v, ',').len() ==> (#[trigger] split_items(v, ',')[i]).len() > 0
            && all_upper_or_digit(split_items(v, ',')[i])
}

/// The parameters of a portfolio-history request.
pub struct PortfolioHistoryFilter<'a> {
    pub period: Option<&'a str>,
    pub timeframe: Option<&'a str>,
    pub start: Option<&'a str>,
    pub end: Option<&'a str>,
    pub intraday_reporting: &'a str,
    pub cashflow_types: Option<&'a str>,
}

/// The parsed bounds of a portfolio-history request, or its first refusal.
pub open spec fn spec_portfolio_history(f: PortfolioHistoryFilter) -> Result<
    (Option<i128>, Option<i128>),
    ParameterError,
> {
    if f.period matches Some(p) && !valid_period(p@) {
        Err(ParameterError::InvalidPeriod)
    } else if f.timeframe matches Some(t) && !(t@ == "1Min"@ || t@ == "5Min"@ || t@ == "15Min"@
        || t@ == "1H"@ || t@ == "1D"@) {
        Err(ParameterError::InvalidTimeframe)
    } else if !(f.intraday_reporting@ == "market_hours"@ || f.intraday_reporting@
        == "extended_hours"@ || f.intraday_reporting@ == "continuous"@) {
        Err(ParameterError::InvalidIntradayReporting)
    } else if f.cashflow_types matches Some(c) && !valid_cashflow_types(c@) {
        Err(ParameterError::InvalidCashflowTypes)
    } else if f.start matches Some(s) && jiff_timestamp_nanos(s@) is None {
        Err(ParameterError::InvalidStart)
    } else if f.end matches Some(e) && jiff_timestamp_nanos(e@) is None {
        Err(ParameterError::InvalidEnd)
    } else {
        let start = match f.start {
            Some(s) => jiff_timestamp_nanos(s@),
            None => None,
        };
        let end = match f.end {
            Some(e) => jiff_timestamp_nanos(e@),
            None => None,
        };
        if start is Some && end is Some && start->0 >= end->0 {
            Err(ParameterError::StartAfterEnd)
        } else if f.period is Some && start is Some && end is Some {
            Err(ParameterError::TooManyBounds)
        } else {
            Ok((start, end))
        }
    }
}

fn period_ok(v: &str) -> (r: bool)
    ensures
        r == valid_period(v@),
{
    let n = v.unicode_len();
    if n == 0 {
        return false;
    }
    let unit = v.get_char(n - 1);
    if !(unit == 'D' || unit == 'W' || unit == 'M' || unit == 'A') {
        return false;
    }
    let number = v.substring_char(0, n - 1);
    assert(number@ =~= v@.drop_last());
    match crate::common::text::parse_u64(number) {
        Some(x) => x > 0 && x <= 0xffff_ffff,
        None => false,
    }
}

fn cashflow_ok(v: &str) -> (r: bool)
    ensures
        r == valid_cashflow_types(v@),
{
    if v.unicode_len() == 0 {
        return false;
    }
    let items = split_at_char(v, ',');
    let mut i: usize = 0;
    while i < items.len()
        invariant
            i <= items@.len(),
            views(items@) == split_items(v@, ','),
            forall|k: int|
                0 <= k < i ==> (#[trigger] views(items@)[k]).len() > 0 && all_upper_or_digit(
                    views(items@)[k],
                ),
        decreases items@.len() - i,
    {
        let item = items[i].as_str();
        if item.unicode_len() == 0 || !upper_or_digit_only(item) {
            proof {
                let k = i as int;
                assert(views(items@)[k] == item@);
                assert(split_items(v@, ',')[k] == item@);
                assert(!((split_items(v@, ',')[k]).len() > 0 && all_upper_or_digit(split_items(v@, ',')[k])));
            }
            return false;
        }
        i = i + 1;
    }
    true
}

fn parse_bound(value: Option<&str>) -> (r: Option<Option<i128>>)
    ensures
        match value {
            Some(v) => match jiff_timestamp_nanos(v@) {
                Some(t) => r == Some(Some(t)),
                None => r == None::<Option<i128>>,
            },
            None => r == Some(None::<i128>),
        },
{
    match value {
        Some(v) => match parse_timestamp(v) {
            Some(t) => Some(Some(t)),
            None => None,
        },
        None => Some(None),
    }
}

/// Checks the parameters of a portfolio-history request and parses its bounds: a valid period
/// and timeframe, a known intraday reporting, a clean cashflow filter, timestamps in order, and
/// at most two of period, start and end.
pub fn check_portfolio_history(f: &PortfolioHistoryFilter) -> (r: Result<
    (Option<i128>, Option<i128>),
    ParameterError,
>)
    ensures
        r == spec_portfolio_history(*f),
{
    if let Some(p) = f.period {
        if !period_ok(p) {
            return Err(ParameterError::InvalidPeriod);
        }
    }
    if let Some(t) = f.timeframe {
        if !(str_eq(t, "1Min") || str_eq(t, "5Min") || str_eq(t, "15Min") || str_eq(t, "1H")
            || str_eq(t, "1D")) {
            return Err(ParameterError::InvalidTimeframe);
        }
    }
    if !(str_eq(f.intraday_reporting, "market_hours") || str_eq(
        f.intraday_reporting,
        "extended_hours",
    ) || str_eq(f.intraday_reporting, "continuous")) {
        return Err(ParameterError::InvalidIntradayReporting);
    }
    if let Some(c) = f.cashflow_types {
        if !cashflow_ok(c) {
            return Err(ParameterError::InvalidCashflowTypes);
        }
    }
    let start = match parse_bound(f.start) {
        Some(v) => v,
        None => return Err(ParameterError::InvalidStart),
    };
    let end = match parse_bound(f.end) {
        Some(v) => v,
        None => return Err(ParameterError::InvalidEnd),
    };
    if let (Some(s), Some(e)) = (start, end) {
        if s >= e {
            return Err(ParameterError::StartAfterEnd);
        }
    }
    if f.period.is_some() && start.is_some() && end.is_some() {
        return Err(ParameterError::TooManyBounds);
    }
    Ok((start, end))
}

/// The parameters of an order-history request.
pub struct OrderHistoryFilter<'a> {
    pub status: &'a str,
    pub symbols: Option<&'a str>,
    pub after: Option<&'a str>,
    pub until: Option<&'a str>,
    pub max_items: usize,
}

/// The parsed bounds of an order-history request, or its first refusal.
pub open spec fn spec_order_history(f: OrderHistoryFilter) -> Result<
    (Option<i128>, Option<i128>),
    ParameterError,
> {
    if !(f.status@ == "open"@ || f.status@ == "closed"@ || f.status@ == "all"@) {
        Err(ParameterError::InvalidStatus)
    } else if !(1 <= f.max_items <= MAX_ORDER_HISTORY) {
        Err(ParameterError::MaxItemsOutOfRange)
    } else if csv_fails(opt_text(f.symbols)) {
        Err(ParameterError::InvalidSymbols)
    } else if f.after matches Some(a) && jiff_timestamp_nanos(a@) is None {
        Err(ParameterError::InvalidStart)
    } else if f.until matches Some(u) && jiff_timestamp_nanos(u@) is None {
        Err(ParameterError::InvalidEnd)
    } else {
        let after = match f.after {
            Some(a) => jiff_timestamp_nanos(a@),
            None => None,
        };
        let until = match f.until {
            Some(u) => jiff_timestamp_nanos(u@),
            None => None,
        };
        if after is Some && until is Some && after->0 >= until->0 {
            Err(ParameterError::StartAfterEnd)
        } else {
            Ok((after, until))
        }
    }
}

/// Checks the parameters of an order-history request and parses its bounds.
pub fn check_order_history(f: &OrderHistoryFilter) -> (r: Result<
    (Option<i128>, Option<i128>),
    ParameterError,
>)
    ensures
        r == spec_order_history(*f),
{
    if !(str_eq(f.status, "open") || str_eq(f.status, "closed") || str_eq(f.status, "all")) {
        return Err(ParameterError::InvalidStatus);
    }
    if f.max_items == 0 || f.max_items > MAX_ORDER_HISTORY {
        return Err(ParameterError::MaxItemsOutOfRange);
    }
    if csv_check(f.symbols) {
        return Err(ParameterError::InvalidSymbols);
    }
    let after = match parse_bound(f.after) {
        Some(v) => v,
        None => return Err(ParameterError::InvalidStart),
    };
    let until = match parse_bound(f.until) {
        Some(v) => v,
        None => return Err(ParameterError::InvalidEnd),
    };
    if let (Some(a), Some(u)) = (after, until) {
        if a >= u {
            return Err(ParameterError::StartAfterEnd);
        }
    }
    Ok((after, until))
}

/// Calendar bounds are ISO dates and the start is not after the end.
pub fn check_calendar(start: Option<&str>, end: Option<&str>) -> (r: Result<(), ParameterError>)
    ensures
        start matches Some(s) && jiff_civil_date(s@) is None ==> r == Err::<(), ParameterError>(
            ParameterError::InvalidStart,
        ),
        !(start matches Some(s) && jiff_civil_date(s@) is None) && (end matches Some(e)
            && jiff_civil_date(e@) is None) ==> r == Err::<(), ParameterError>(
            ParameterError::InvalidEnd,
        ),
        (start matches Some(s) ==> jiff_civil_date(s@) is Some) && (end matches Some(e)
            ==> jiff_civil_date(e@) is Some) ==> (r is Ok <==> !(start is Some && end is Some
            && date_after(
            jiff_civil_date(start->0@)->0,
            jiff_civil_date(end->0@)->0,
        ))),
{
    let s = match start {
        Some(v) => match parse_civil_date(v) {
            Some(d) => Some(d),
            None => return Err(ParameterError::InvalidStart),
        },
        None => None,
    };
    let e = match end {
        Some(v) => match parse_civil_date(v) {
            Some(d) => Some(d),
            None => return Err(ParameterError::InvalidEnd),
        },
        None => None,
    };
    if let (Some(a), Some(b)) = (s, e) {
        if is_date_after(a, b) {
            return Err(ParameterError::StartAfterEnd);
        }
    }
    Ok(())
}

} // verus!
