use vstd::prelude::*;
use vstd::string::*;

use crate::common::enums::AlpacaDataFeed;
use crate::common::text::{
    split_at_char, split_items, all_upper_or_digit, blank, contains_char, has_surrounding_white_space, is_blank,
    is_white_space, str_eq, surrounding_white_space, upper_or_digit_only, views, white_space,
};
use crate::decimal::{ExactDecimal, ValueOrder};
use crate::requests::parsing::{
    date_after, decimal_from_text, is_date_after, jiff_civil_date, jiff_timestamp_nanos,
    parse_civil_date, parse_decimal, parse_timestamp,
};

verus! {

/// The most items a historical request may ask for.
pub const MAX_HISTORICAL_ITEMS: usize = 1_000_000;

/// The most contracts of one option request.
pub const MAX_OPTION_SYMBOLS: usize = 100;

/// The longest option contract symbol.
pub const MAX_OPTION_SYMBOL_LEN: usize = 32;

/// Why a request is refused before it is sent.
#[derive(Clone, Debug)]
pub enum RequestError {
    InvalidSymbol,
    HistoricalRangesUnsupported(AlpacaDataFeed),
    HistoricalMaxItems,
    InvalidStart,
    InvalidEnd,
    StartNotBeforeEnd,
    InvalidList { label: String },
    NoSymbols { label: String },
    DuplicateSymbols { label: String },
    OptionSymbolCount { label: String },
    InvalidOptionSymbol,
    InvalidAsOf,
    InvalidTimeframe,
    InvalidOptionType,
    InvalidOptionDate { label: String },
    InvalidMinimumStrike,
    InvalidMaximumStrike,
    NegativeStrike,
    StrikeRange,
    OptionHistoryMaxItems,
    InvalidUpdatedSince,
    InvalidWatchlistKey { label: String, reject_slash: bool },
}

// ---------------------------------------------------------------------------------------------
// Symbols and lists
// ---------------------------------------------------------------------------------------------

/// One non-empty equity symbol without white space at either end, `,` or `/`.
pub open spec fn valid_equity_symbol(s: Seq<char>) -> bool {
    !is_blank(s) && !has_surrounding_white_space(s) && !s.contains(',') && !s.contains('/')
}

/// Rejects anything but one equity symbol.
pub fn validate_equity_symbol(symbol: &str) -> (r: Result<(), RequestError>)
    ensures
        r is Ok <==> valid_equity_symbol(symbol@),
        r matches Err(e) ==> e is InvalidSymbol,
{
    if blank(symbol) || surrounding_white_space(symbol) || contains_char(symbol, ',')
        || contains_char(symbol, '/') {
        return Err(RequestError::InvalidSymbol);
    }
    Ok(())
}

/// Every item of a `,`-separated text is non-empty and has no white space at either end, and the
/// text itself is not empty.
pub open spec fn valid_csv(s: Seq<char>) -> bool {
    &&& s.len() > 0
    &&& forall|i: int|
        0 <= i < split_items(s, ',').len() ==> clean_item(#[trigger] split_items(s, ',')[i])
}

pub open spec fn clean_item(item: Seq<char>) -> bool {
    item.len() > 0 && !has_surrounding_white_space(item)
}

/// Whether every item is non-empty and free of surrounding white space.
pub fn items_clean(items: &Vec<String>) -> (r: bool)
    ensures
        r == (forall|i: int| 0 <= i < items@.len() ==> clean_item(#[trigger] views(items@)[i])),
{
    let mut i: usize = 0;
    while i < items.len()
        invariant
            i <= items@.len(),
            forall|k: int| 0 <= k < i ==> clean_item(#[trigger] views(items@)[k]),
        decreases items@.len() - i,
    {
        let item = items[i].as_str();
        if item.unicode_len() == 0 || surrounding_white_space(item) {
            assert(!clean_item(views(items@)[i as int]));
            return false;
        }
        i = i + 1;
    }
    true
}

pub fn csv_ok(s: &str) -> (r: bool)
    ensures
        r == valid_csv(s@),
{
    if s.unicode_len() == 0 {
        return false;
    }
    let items = split_at_char(s, ',');
    items_clean(&items)
}

/// Rejects a present value that is not a clean comma-separated list.
pub fn validate_csv(value: Option<&str>, label: &str) -> (r: Result<(), RequestError>)
    ensures
        r is Ok <==> (value matches Some(v) ==> valid_csv(v@)),
        r matches Err(e) ==> (e matches RequestError::InvalidList { label: l } && l@ == label@),
{
    if let Some(v) = value {
        if !csv_ok(v) {
            return Err(RequestError::InvalidList { label: String::from_str(label) });
        }
    }
    Ok(())
}

pub open spec fn no_duplicate_texts(s: Seq<Seq<char>>) -> bool {
    forall|i: int, j: int| 0 <= i < j < s.len() ==> s[i] != s[j]
}

/// The items joined with `,`.
pub open spec fn joined(s: Seq<Seq<char>>) -> Seq<char>
    decreases s.len(),
{
    if s.len() <= 1 {
        if s.len() == 1 {
            s[0]
        } else {
            seq![]
        }
    } else {
        joined(s.drop_last()) + seq![','] + s.last()
    }
}

fn join_with_commas(items: &Vec<String>) -> (r: String)
    requires
        items@.len() > 0,
    ensures
        r@ == joined(views(items@)),
{
    let mut out = items[0].clone();
    proof {
        assert(views(items@).subrange(0, 1) =~= seq![items@[0]@]);
    }
    let mut i: usize = 1;
    while i < items.len()
        invariant
            1 <= i <= items@.len(),
            out@ == joined(views(items@).subrange(0, i as int)),
        decreases items@.len() - i,
    {
        out.append(",");
        out.append(items[i].as_str());
        proof {
            reveal_strlit(",");
            let next = views(items@).subrange(0, i + 1);
            assert(next.drop_last() =~= views(items@).subrange(0, i as int));
            assert(next.last() == items@[i as int]@);
        }
        i = i + 1;
    }
    assert(views(items@).subrange(0, items@.len() as int) =~= views(items@));
    out
}

fn has_duplicate(items: &Vec<String>) -> (r: bool)
    ensures
        r == !no_duplicate_texts(views(items@)),
{
    let mut i: usize = 0;
    while i < items.len()
        invariant
            i <= items@.len(),
            forall|p: int, q: int| 0 <= p < q < items@.len() && p < i ==> items@[p]@ != items@[q]@,
        decreases items@.len() - i,
    {
        let mut j: usize = i + 1;
        while j < items.len()
            invariant
                i < items@.len(),
                i + 1 <= j <= items@.len(),
                forall|p: int, q: int| 0 <= p < q < items@.len() && p < i ==> items@[p]@ != items@[q]@,
                forall|q: int| i < q < j ==> items@[i as int]@ != items@[q]@,
            decreases items@.len() - j,
        {
            if items[i] == items[j] {
                proof {
                    let v = views(items@);
                    assert(v[i as int] == v[j as int]);
                }
                return true;
            }
            j = j + 1;
        }
        i = i + 1;
    }
    proof {
        let v = views(items@);
        assert forall|p: int, q: int| 0 <= p < q < v.len() implies v[p] != v[q] by {
            assert(v[p] == items@[p]@ && v[q] == items@[q]@);
        }
    }
    false
}

/// The comma-joined symbols of a multi-symbol request, or why they are refused: at least one,
/// each an equity symbol, and no symbol twice.
pub open spec fn spec_join_unique_symbols(symbols: Seq<Seq<char>>) -> Option<Seq<char>> {
    if symbols.len() == 0 || exists|i: int| 0 <= i < symbols.len() && !valid_equity_symbol(
        #[trigger] symbols[i],
    ) || !no_duplicate_texts(symbols) {
        None
    } else {
        Some(joined(symbols))
    }
}

/// Joins the symbols of a multi-symbol request.
pub fn join_unique_symbols(symbols: Vec<String>, label: &str) -> (r: Result<String, RequestError>)
    ensures
        match spec_join_unique_symbols(views(symbols@)) {
            Some(j) => r matches Ok(s) && s@ == j,
            None => r is Err,
        },
        symbols@.len() == 0 ==> (r matches Err(e) && e matches RequestError::NoSymbols { label: l }
            && l@ == label@),
{
    if symbols.len() == 0 {
        return Err(RequestError::NoSymbols { label: String::from_str(label) });
    }
    let mut i: usize = 0;
    while i < symbols.len()
        invariant
            i <= symbols@.len(),
            forall|k: int| 0 <= k < i ==> valid_equity_symbol(#[trigger] views(symbols@)[k]),
        decreases symbols@.len() - i,
    {
        if validate_equity_symbol(symbols[i].as_str()).is_err() {
            proof {
                assert(!valid_equity_symbol(views(symbols@)[i as int]));
            }
            return Err(RequestError::InvalidSymbol);
        }
        i = i + 1;
    }
    if has_duplicate(&symbols) {
        return Err(RequestError::DuplicateSymbols { label: String::from_str(label) });
    }
    Ok(join_with_commas(&symbols))
}

/// An option contract symbol: 1 to 32 uppercase ASCII letters and digits.
pub open spec fn valid_option_symbol(s: Seq<char>) -> bool {
    s.len() > 0 && s.len() <= MAX_OPTION_SYMBOL_LEN && all_upper_or_digit(s)
}

/// The comma-joined contracts of an option request, or why they are refused: 1 to 100
/// contracts, each a valid option symbol, none twice.
pub open spec fn spec_join_option_symbols(symbols: Seq<Seq<char>>) -> Option<Seq<char>> {
    if symbols.len() == 0 || symbols.len() > MAX_OPTION_SYMBOLS || exists|i: int|
        0 <= i < symbols.len() && !valid_option_symbol(#[trigger] symbols[i]) || !no_duplicate_texts(
        symbols,
    ) {
        None
    } else {
        Some(joined(symbols))
    }
}

/// Joins the contracts of an option request.
pub fn join_option_symbols(symbols: Vec<String>, label: &str) -> (r: Result<String, RequestError>)
    ensures
        match spec_join_option_symbols(views(symbols@)) {
            Some(j) => r matches Ok(s) && s@ == j,
            None => r is Err,
        },
{
    if symbols.len() == 0 || symbols.len() > MAX_OPTION_SYMBOLS {
        return Err(RequestError::OptionSymbolCount { label: String::from_str(label) });
    }
    let mut i: usize = 0;
    while i < symbols.len()
        invariant
            i <= symbols@.len(),
            forall|k: int| 0 <= k < i ==> valid_option_symbol(#[trigger] views(symbols@)[k]),
        decreases symbols@.len() - i,
    {
        let s = symbols[i].as_str();
        let n = s.unicode_len();
        if n == 0 || n > MAX_OPTION_SYMBOL_LEN || !upper_or_digit_only(s) {
            proof {
                assert(!valid_option_symbol(views(symbols@)[i as int]));
            }
            return Err(RequestError::InvalidOptionSymbol);
        }
        i = i + 1;
    }
    if has_duplicate(&symbols) {
        return Err(RequestError::DuplicateSymbols { label: String::from_str(label) });
    }
    Ok(join_with_commas(&symbols))
}

// ---------------------------------------------------------------------------------------------
// Historical requests
// ---------------------------------------------------------------------------------------------

/// The time range of a historical request, as epoch nanoseconds: both ends parse and the start
/// is earlier than the end.
pub open spec fn spec_historical_range(start: Seq<char>, end: Seq<char>) -> Result<
    (i128, i128),
    (),
> {
    match (jiff_timestamp_nanos(start), jiff_timestamp_nanos(end)) {
        (Some(s), Some(e)) => if s < e {
            Ok((s, e))
        } else {
            Err(())
        },
        _ => Err(()),
    }
}

/// Parses the time range of a historical request.
pub fn historical_range(start: &str, end: &str) -> (r: Result<(i128, i128), RequestError>)
    ensures
        match jiff_timestamp_nanos(start@) {
            None => r matches Err(RequestError::InvalidStart),
            Some(s) => match jiff_timestamp_nanos(end@) {
                None => r matches Err(RequestError::InvalidEnd),
                Some(e) => if s < e {
                    r matches Ok(p) && p == (s, e)
                } else {
                    r matches Err(RequestError::StartNotBeforeEnd)
                },
            },
        },
{
    let s = match parse_timestamp(start) {
        Some(v) => v,
        None => return Err(RequestError::InvalidStart),
    };
    let e = match parse_timestamp(end) {
        Some(v) => v,
        None => return Err(RequestError::InvalidEnd),
    };
    if s >= e {
        return Err(RequestError::StartNotBeforeEnd);
    }
    Ok((s, e))
}

/// A historical request names one equity symbol, a feed that serves ranges, and 1 to 1,000,000
/// items.
pub fn validate_historical_request(symbol: &str, feed: AlpacaDataFeed, max_items: usize) -> (r:
    Result<(), RequestError>)
    ensures
        !valid_equity_symbol(symbol@) ==> r matches Err(RequestError::InvalidSymbol),
        valid_equity_symbol(symbol@) && !(feed is Iex || feed is Sip || feed is Boats || feed is Otc)
            ==> (r matches Err(RequestError::HistoricalRangesUnsupported(f)) && f == feed),
        valid_equity_symbol(symbol@) && (feed is Iex || feed is Sip || feed is Boats || feed is Otc)
            ==> (r is Ok <==> 1 <= max_items <= MAX_HISTORICAL_ITEMS),
        valid_equity_symbol(symbol@) && (feed is Iex || feed is Sip || feed is Boats || feed is Otc)
            && !(1 <= max_items <= MAX_HISTORICAL_ITEMS) ==> r matches Err(
            RequestError::HistoricalMaxItems,
        ),
{
    validate_equity_symbol(symbol)?;
    if !feed.supports_historical_ranges() {
        return Err(RequestError::HistoricalRangesUnsupported(feed));
    }
    if max_items == 0 || max_items > MAX_HISTORICAL_ITEMS {
        return Err(RequestError::HistoricalMaxItems);
    }
    Ok(())
}

/// `asof` is `-` or an ISO date.
pub fn validate_asof(asof: Option<&str>) -> (r: Result<(), RequestError>)
    ensures
        r is Ok <==> (asof matches Some(v) ==> (v@ == "-"@ || jiff_civil_date(v@) is Some)),
        r matches Err(e) ==> e is InvalidAsOf,
{
    if let Some(v) = asof {
        if !str_eq(v, "-") {
            if parse_civil_date(v).is_none() {
                return Err(RequestError::InvalidAsOf);
            }
        }
    }
    Ok(())
}

/// The `u8` that `str::parse::<u8>` yields.
pub open spec fn spec_parse_u8(s: Seq<char>) -> Option<u8> {
    match crate::common::text::spec_parse_u64(s) {
        Some(v) => if v <= u8::MAX {
            Some(v as u8)
        } else {
            None
        },
        None => None,
    }
}

/// `value` is `prefix + suffix` with a step that parses as `u8`.
pub open spec fn step_with_suffix(value: Seq<char>, suffix: Seq<char>) -> Option<u8> {
    if value.len() >= suffix.len() && value.subrange(value.len() - suffix.len(), value.len() as int)
        == suffix {
        spec_parse_u8(value.subrange(0, value.len() - suffix.len()))
    } else {
        None
    }
}

pub open spec fn is_month_step(step: u8) -> bool {
    step == 1 || step == 2 || step == 3 || step == 4 || step == 6 || step == 12
}

/// A historical bar timeframe: 1-59 minutes (`Min`/`T`), 1-23 hours (`Hour`/`H`), one day
/// (`Day`/`D`), one week (`Week`/`W`), or 1, 2, 3, 4, 6 or 12 months (`Month`/`M`).
pub open spec fn valid_historical_timeframe(v: Seq<char>) -> bool {
    ||| (step_with_suffix(v, "Month"@) matches Some(s) && is_month_step(s))
    ||| (step_with_suffix(v, "Hour"@) matches Some(s) && 1 <= s <= 23)
    ||| (step_with_suffix(v, "Week"@) matches Some(s) && s == 1)
    ||| (step_with_suffix(v, "Day"@) matches Some(s) && s == 1)
    ||| (step_with_suffix(v, "Min"@) matches Some(s) && 1 <= s <= 59)
    ||| (step_with_suffix(v, "M"@) matches Some(s) && is_month_step(s))
    ||| (step_with_suffix(v, "H"@) matches Some(s) && 1 <= s <= 23)
    ||| (step_with_suffix(v, "W"@) matches Some(s) && s == 1)
    ||| (step_with_suffix(v, "D"@) matches Some(s) && s == 1)
    ||| (step_with_suffix(v, "T"@) matches Some(s) && 1 <= s <= 59)
}

fn step_for(value: &str, suffix: &str) -> (r: Option<u8>)
    ensures
        r == step_with_suffix(value@, suffix@),
{
    let n = value.unicode_len();
    let k = suffix.unicode_len();
    if n < k {
        return None;
    }
    let tail = value.substring_char(n - k, n);
    if !str_eq(tail, suffix) {
        return None;
    }
    let head = value.substring_char(0, n - k);
    match crate::common::text::parse_u64(head) {
        Some(v) => if v <= 255 {
            Some(v as u8)
        } else {
            None
        },
        None => None,
    }
}

/// Rejects a timeframe that historical bars do not accept.
pub fn validate_historical_timeframe(value: &str) -> (r: Result<(), RequestError>)
    ensures
        r is Ok <==> valid_historical_timeframe(value@),
        r matches Err(e) ==> e is InvalidTimeframe,
{
    let month = |s: u8| -> (b: bool)
        ensures
            b == is_month_step(s),
        { s == 1 || s == 2 || s == 3 || s == 4 || s == 6 || s == 12 };
    let valid = match step_for(value, "Month") {
        Some(s) if month(s) => true,
        _ => match step_for(value, "Hour") {
            Some(s) if 1 <= s && s <= 23 => true,
            _ => match step_for(value, "Week") {
                Some(s) if s == 1 => true,
                _ => match step_for(value, "Day") {
                    Some(s) if s == 1 => true,
                    _ => match step_for(value, "Min") {
                        Some(s) if 1 <= s && s <= 59 => true,
                        _ => match step_for(value, "M") {
                            Some(s) if month(s) => true,
                            _ => match step_for(value, "H") {
                                Some(s) if 1 <= s && s <= 23 => true,
                                _ => match step_for(value, "W") {
                                    Some(s) if s == 1 => true,
                                    _ => match step_for(value, "D") {
                                        Some(s) if s == 1 => true,
                                        _ => match step_for(value, "T") {
                                            Some(s) if 1 <= s && s <= 59 => true,
                                            _ => false,
                                        },
                                    },
                                },
                            },
                        },
                    },
                },
            },
        },
    };
    if !valid {
        return Err(RequestError::InvalidTimeframe);
    }
    Ok(())
}

// ---------------------------------------------------------------------------------------------
// Options
// ---------------------------------------------------------------------------------------------

/// The option type is `call` or `put`.
pub fn validate_option_type(value: Option<&str>) -> (r: Result<(), RequestError>)
    ensures
        r is Ok <==> (value matches Some(v) ==> (v@ == "call"@ || v@ == "put"@)),
        r matches Err(e) ==> e is InvalidOptionType,
{
    if let Some(v) = value {
        if !(str_eq(v, "call") || str_eq(v, "put")) {
            return Err(RequestError::InvalidOptionType);
        }
    }
    Ok(())
}

/// A present option date parses as an ISO date.
pub fn validate_option_date(value: Option<&str>, label: &str) -> (r: Result<(), RequestError>)
    ensures
        r is Ok <==> (value matches Some(v) ==> jiff_civil_date(v@) is Some),
        r matches Err(e) ==> (e matches RequestError::InvalidOptionDate { label: l } && l@
            == label@),
{
    if let Some(v) = value {
        if parse_civil_date(v).is_none() {
            return Err(RequestError::InvalidOptionDate { label: String::from_str(label) });
        }
    }
    Ok(())
}

pub open spec fn strike_of(d: (i128, u32)) -> ExactDecimal {
    ExactDecimal::spec_from_mantissa(d.0, d.1)
}

/// The strike bounds parse as decimals, neither has its sign set, and the minimum does not
/// exceed the maximum.
pub open spec fn spec_option_strikes(gte: Option<Seq<char>>, lte: Option<Seq<char>>) -> Result<
    (),
    (),
> {
    if gte matches Some(g) && decimal_from_text(g) is None {
        Err(())
    } else if lte matches Some(l) && decimal_from_text(l) is None {
        Err(())
    } else {
        let low = match gte {
            Some(g) => Some(strike_of(decimal_from_text(g)->0)),
            None => None,
        };
        let high = match lte {
            Some(l) => Some(strike_of(decimal_from_text(l)->0)),
            None => None,
        };
        if (low matches Some(x) && x.negative) || (high matches Some(x) && x.negative) {
            Err(())
        } else if low is Some && high is Some && (low->0).spec_compare(high->0)
            == ValueOrder::Greater {
            Err(())
        } else {
            Ok(())
        }
    }
}

pub open spec fn opt_text(s: Option<&str>) -> Option<Seq<char>> {
    match s {
        Some(v) => Some(v@),
        None => None,
    }
}

fn parse_strike(value: Option<&str>) -> (r: Option<Option<ExactDecimal>>)
    ensures
        match value {
            Some(v) => match decimal_from_text(v@) {
                Some(d) => r == Some(Some(strike_of(d))) && strike_of(d).wf(),
                None => r == None::<Option<ExactDecimal>>,
            },
            None => r == Some(None::<ExactDecimal>),
        },
{
    match value {
        Some(v) => match parse_decimal(v) {
            Some(d) => Some(Some(ExactDecimal::from_mantissa(d.0, d.1))),
            None => None,
        },
        None => Some(None),
    }
}

/// Rejects strike bounds that do not parse, are negative, or are out of order. A negative zero
/// counts as negative, as `Decimal::is_sign_negative` has it.
pub fn validate_option_strikes(gte: Option<&str>, lte: Option<&str>) -> (r: Result<
    (),
    RequestError,
>)
    ensures
        r is Ok <==> spec_option_strikes(opt_text(gte), opt_text(lte)) is Ok,
{
    let low = match parse_strike(gte) {
        Some(v) => v,
        None => return Err(RequestError::InvalidMinimumStrike),
    };
    let high = match parse_strike(lte) {
        Some(v) => v,
        None => return Err(RequestError::InvalidMaximumStrike),
    };
    let low_negative = match low {
        Some(x) => x.negative,
        None => false,
    };
    let high_negative = match high {
        Some(x) => x.negative,
        None => false,
    };
    if low_negative || high_negative {
        return Err(RequestError::NegativeStrike);
    }
    if let (Some(a), Some(b)) = (low, high) {
        if let ValueOrder::Greater = a.compare(&b) {
            return Err(RequestError::StrikeRange);
        }
    }
    Ok(())
}

/// Historical option requests ask for 1 to 1,000,000 items.
pub fn validate_option_history_limit(max_items: usize) -> (r: Result<(), RequestError>)
    ensures
        r is Ok <==> 1 <= max_items <= MAX_HISTORICAL_ITEMS,
        r matches Err(e) ==> e is OptionHistoryMaxItems,
{
    if max_items == 0 || max_items > MAX_HISTORICAL_ITEMS {
        return Err(RequestError::OptionHistoryMaxItems);
    }
    Ok(())
}

/// `updated_since` is an RFC 3339 timestamp or an ISO date.
pub fn validate_option_updated_since(value: Option<&str>) -> (r: Result<(), RequestError>)
    ensures
        r is Ok <==> (value matches Some(v) ==> (jiff_timestamp_nanos(v@) is Some
            || jiff_civil_date(v@) is Some)),
        r matches Err(e) ==> e is InvalidUpdatedSince,
{
    if let Some(v) = value {
        if parse_timestamp(v).is_none() && parse_civil_date(v).is_none() {
            return Err(RequestError::InvalidUpdatedSince);
        }
    }
    Ok(())
}

/// A watchlist id or name: not blank, no white space at either end, and no `/` where the value
/// goes into a path.
pub fn validate_watchlist_key(label: &str, value: &str, reject_slash: bool) -> (r: Result<
    (),
    RequestError,
>)
    ensures
        r is Ok <==> !(is_blank(value@) || has_surrounding_white_space(value@) || (reject_slash
            && value@.contains('/'))),
        r matches Err(e) ==> (e matches RequestError::InvalidWatchlistKey { label: l, reject_slash: s }
            && l@ == label@ && s == reject_slash),
{
    if blank(value) || surrounding_white_space(value) || (reject_slash && contains_char(value, '/')) {
        return Err(RequestError::InvalidWatchlistKey { label: String::from_str(label), reject_slash });
    }
    Ok(())
}

} // verus!
