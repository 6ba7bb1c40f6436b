use vstd::prelude::*;
use vstd::string::*;

use crate::common::enums::{adjustment_name, feed_name, AlpacaBarAdjustment, AlpacaDataFeed};
use crate::common::params::{
    keys_unique, lemma_upserted, lookup, param_value_view, params_view, text_lookup, text_param,
    upsert_param, upserted,
    ParamValue, ParamView,
};
use crate::common::text::{append_decimal, decimal_text, str_eq};
use crate::config::AlpacaDataClientConfig;
use crate::requests::paging::{opt_str_view, token_page_step, ListingError};
use crate::websocket::client::{
    channel_list, push_subscription_symbol, AlpacaWsAction, AlpacaWsSubscription,
};

verus! {

/// The most rows one historical market-data page may hold.
pub const HISTORICAL_PAGE_LIMIT: u32 = 10_000;

/// How the rows of a bar are aggregated.
#[derive(Copy, Clone, Debug, PartialEq, Eq, Structural)]
pub enum BarAggregation {
    Tick,
    TickImbalance,
    TickRuns,
    Volume,
    VolumeImbalance,
    VolumeRuns,
    Value,
    ValueImbalance,
    ValueRuns,
    Millisecond,
    Second,
    Minute,
    Hour,
    Day,
    Week,
    Month,
    Year,
    Renko,
}

/// The price a bar is built from.
#[derive(Copy, Clone, Debug, PartialEq, Eq, Structural)]
pub enum PriceType {
    Bid,
    Ask,
    Mid,
    Last,
    Mark,
}

/// Whether bars come from the venue or are built locally.
#[derive(Copy, Clone, Debug, PartialEq, Eq, Structural)]
pub enum AggregationSource {
    External,
    Internal,
}

/// What a bar type says about its bars: step, aggregation, price and source.
#[derive(Copy, Clone, Debug, PartialEq, Eq, Structural)]
pub struct BarTypeSpec {
    pub step: u64,
    pub aggregation: BarAggregation,
    pub price_type: PriceType,
    pub source: AggregationSource,
}

/// The kind of rows a historical request asks for.
#[derive(Copy, Clone, Debug, PartialEq, Eq, Structural)]
pub enum HistoricalKind {
    Bars,
    Quotes,
    Trades,
}

/// An instrument identifier: symbol and venue.
#[derive(Clone, Debug)]
pub struct InstrumentKey {
    pub symbol: String,
    pub venue: String,
}

/// Why the market-data client refuses a subscription or a historical request.
#[derive(Clone, Debug)]
pub enum DataRequestError {
    /// Live and historical bars must be built by the venue.
    InternalBars,
    /// Live bars are one-minute or one-day bars of last prices.
    UnsupportedLiveBar,
    /// Live bars are minute or daily bars.
    UnsupportedLiveAggregation,
    /// Historical bars must be external bars of last prices.
    NotLastExternal,
    UnsupportedHistoricalAggregation(BarAggregation),
    MissingStart(HistoricalKind),
    StartNotBeforeEnd(HistoricalKind),
    /// The instrument's venue is not ALPACA (carries the instrument id).
    WrongVenue(String),
    /// The instrument was not loaded (carries the instrument id).
    UnknownInstrument(String),
    UnsupportedHistoricalFeed(AlpacaDataFeed),
    /// A page repeated the previous page token.
    PaginationStalled(HistoricalKind),
    /// The system clock could not be read as a timestamp.
    ClockUnavailable(HistoricalKind),
    /// The request's `adjustment` parameter is not raw, split, dividend or all.
    InvalidBarAdjustment,
}

/// The live stream channel of a bar type.
pub open spec fn spec_bar_channel(bar: BarTypeSpec) -> Result<Seq<char>, DataRequestError> {
    if bar.source != AggregationSource::External {
        Err(DataRequestError::InternalBars)
    } else if bar.price_type != PriceType::Last || bar.step != 1 {
        Err(DataRequestError::UnsupportedLiveBar)
    } else if bar.aggregation == BarAggregation::Minute {
        Ok("bars"@)
    } else if bar.aggregation == BarAggregation::Day {
        Ok("dailyBars"@)
    } else {
        Err(DataRequestError::UnsupportedLiveAggregation)
    }
}

/// Live bars are streamed for external one-minute and one-day bars of last prices only.
pub fn bar_channel(bar: BarTypeSpec) -> (r: Result<&'static str, DataRequestError>)
    ensures
        match (r, spec_bar_channel(bar)) {
            (Ok(c), Ok(s)) => c@ == s,
            (Err(e), Err(s)) => e == s,
            _ => false,
        },
{
    if !matches!(bar.source, AggregationSource::External) {
        return Err(DataRequestError::InternalBars);
    }
    if !matches!(bar.price_type, PriceType::Last) || bar.step != 1 {
        return Err(DataRequestError::UnsupportedLiveBar);
    }
    match bar.aggregation {
        BarAggregation::Minute => Ok("bars"),
        BarAggregation::Day => Ok("dailyBars"),
        _ => Err(DataRequestError::UnsupportedLiveAggregation),
    }
}

/// The unit suffix of a historical timeframe, where the aggregation has one.
pub open spec fn timeframe_suffix(a: BarAggregation) -> Option<Seq<char>> {
    match a {
        BarAggregation::Minute => Some("Min"@),
        BarAggregation::Hour => Some("Hour"@),
        BarAggregation::Day => Some("Day"@),
        BarAggregation::Week => Some("Week"@),
        BarAggregation::Month => Some("Month"@),
        _ => None,
    }
}

/// The historical timeframe of a bar type: its step followed by the unit (`4Hour`).
pub open spec fn spec_historical_timeframe(bar: BarTypeSpec) -> Result<Seq<char>, DataRequestError> {
    if bar.source != AggregationSource::External || bar.price_type != PriceType::Last {
        Err(DataRequestError::NotLastExternal)
    } else {
        match timeframe_suffix(bar.aggregation) {
            Some(suffix) => Ok(decimal_text(bar.step as nat) + suffix),
            None => Err(DataRequestError::UnsupportedHistoricalAggregation(bar.aggregation)),
        }
    }
}

/// Historical bars are requested by timeframe; only external bars of last prices, aggregated
/// by minute, hour, day, week or month, have one.
pub fn historical_timeframe(bar: BarTypeSpec) -> (r: Result<String, DataRequestError>)
    ensures
        match (r, spec_historical_timeframe(bar)) {
            (Ok(t), Ok(s)) => t@ == s,
            (Err(e), Err(s)) => e == s,
            _ => false,
        },
{
    if !matches!(bar.source, AggregationSource::External) || !matches!(
        bar.price_type,
        PriceType::Last
    ) {
        return Err(DataRequestError::NotLastExternal);
    }
    let suffix = match bar.aggregation {
        BarAggregation::Minute => "Min",
        BarAggregation::Hour => "Hour",
        BarAggregation::Day => "Day",
        BarAggregation::Week => "Week",
        BarAggregation::Month => "Month",
        _ => {
            return Err(DataRequestError::UnsupportedHistoricalAggregation(bar.aggregation));
        },
    };
    let mut text = String::new();
    append_decimal(&mut text, bar.step);
    text.append(suffix);
    Ok(text)
}

/// The request's parameters as a map, when it has any.
pub open spec fn request_params_view(params: Option<Vec<(String, ParamValue)>>) -> Option<
    Seq<(Seq<char>, ParamView)>,
> {
    match params {
        Some(p) => Some(params_view(p@)),
        None => None,
    }
}

/// The text of the request's `adjustment` parameter, if it holds one.
pub open spec fn adjustment_param(params: Option<Vec<(String, ParamValue)>>) -> Option<Seq<char>> {
    match request_params_view(params) {
        Some(p) => text_lookup(p, "adjustment"@),
        None => None,
    }
}

/// The adjustment of a historical bar request: the request's `adjustment` parameter where it
/// names one, else the configured default; a parameter that names none is refused.
pub fn effective_bar_adjustment(
    params: &Option<Vec<(String, ParamValue)>>,
    default: AlpacaBarAdjustment,
) -> (r: Result<AlpacaBarAdjustment, DataRequestError>)
    requires
        params matches Some(p) ==> keys_unique(params_view(p@)),
    ensures
        adjustment_param(*params) is None ==> r == Ok::<AlpacaBarAdjustment, DataRequestError>(default),
        adjustment_param(*params) matches Some(t) ==> match r {
            Ok(a) => adjustment_name(a) == t,
            Err(e) => e == DataRequestError::InvalidBarAdjustment && forall|a: AlpacaBarAdjustment|
                adjustment_name(a) != t,
        },
{
    let text = match params {
        Some(p) => text_param(p, "adjustment"),
        None => None,
    };
    match text {
        None => Ok(default),
        Some(t) => match AlpacaBarAdjustment::parse(t) {
            Some(a) => Ok(a),
            None => Err(DataRequestError::InvalidBarAdjustment),
        },
    }
}

/// The range of a historical request: an explicit start, and an end that defaults to `now`;
/// the start must come first.
pub open spec fn spec_historical_range(
    start: Option<i128>,
    end: Option<i128>,
    now: i128,
    kind: HistoricalKind,
) -> Result<(i128, i128), DataRequestError> {
    match start {
        None => Err(DataRequestError::MissingStart(kind)),
        Some(s) => {
            let e = match end {
                Some(e) => e,
                None => now,
            };
            if s < e {
                Ok((s, e))
            } else {
                Err(DataRequestError::StartNotBeforeEnd(kind))
            }
        },
    }
}

/// Resolves the range of a historical request, in nanoseconds since the epoch, given the
/// current time.
pub fn historical_range(start: Option<i128>, end: Option<i128>, now: i128, kind: HistoricalKind) -> (r:
    Result<(i128, i128), DataRequestError>)
    ensures
        match (r, spec_historical_range(start, end, now, kind)) {
            (Ok(a), Ok(b)) => a == b,
            (Err(e), Err(s)) => e == s,
            _ => false,
        },
{
    let start = match start {
        Some(s) => s,
        None => {
            return Err(DataRequestError::MissingStart(kind));
        },
    };
    let end = match end {
        Some(e) => e,
        None => now,
    };
    if start < end {
        Ok((start, end))
    } else {
        Err(DataRequestError::StartNotBeforeEnd(kind))
    }
}

/// Reads the system clock through `jiff::Timestamp::try_from` on `SystemTime::now()`, in
/// nanoseconds since the epoch, or `None` where the clock lies outside jiff's range. Nothing
/// more is stated of the value: it is the time.
#[verifier::external_body]
fn current_time_nanos() -> (r: Option<i128>) {
    match jiff::Timestamp::try_from(std::time::SystemTime::now()) {
        Ok(t) => Some(t.as_nanosecond()),
        Err(_) => None,
    }
}

/// Resolves the range of a historical request against the system clock, which is read only
/// where the request has a start and no end; a clock that cannot be read is an error.
pub fn resolve_historical_range(start: Option<i128>, end: Option<i128>, kind: HistoricalKind) -> (r:
    Result<(i128, i128), DataRequestError>)
    ensures
        r == Err::<(i128, i128), DataRequestError>(DataRequestError::ClockUnavailable(kind))
            || exists|now: i128| r == #[trigger] spec_historical_range(start, end, now, kind),
        r == Err::<(i128, i128), DataRequestError>(DataRequestError::ClockUnavailable(kind))
            ==> start is Some && end is None,
        end is Some ==> r == spec_historical_range(start, end, 0, kind),
        start is None ==> r == Err::<(i128, i128), DataRequestError>(
            DataRequestError::MissingStart(kind),
        ),
{
    let now = match end {
        Some(_) => 0,
        None => {
            if start.is_none() {
                0
            } else {
                match current_time_nanos() {
                    Some(t) => t,
                    None => {
                        return Err(DataRequestError::ClockUnavailable(kind));
                    },
                }
            }
        },
    };
    let r = historical_range(start, end, now, kind);
    assert(r == spec_historical_range(start, end, now, kind));
    r
}

/// The page limit of the next historical request: the venue maximum without a limit, else
/// what is left of the limit, at least one and at most the venue maximum.
pub open spec fn spec_remaining_page_limit(limit: Option<usize>, current: usize) -> u32 {
    match limit {
        None => HISTORICAL_PAGE_LIMIT,
        Some(v) => {
            let left: int = if v >= current {
                v - current
            } else {
                0
            };
            if left < 1 {
                1
            } else if left > HISTORICAL_PAGE_LIMIT {
                HISTORICAL_PAGE_LIMIT
            } else {
                left as u32
            }
        },
    }
}

pub fn remaining_page_limit(limit: Option<usize>, current: usize) -> (r: u32)
    ensures
        r == spec_remaining_page_limit(limit, current),
        1 <= r <= HISTORICAL_PAGE_LIMIT,
{
    match limit {
        None => HISTORICAL_PAGE_LIMIT,
        Some(v) => {
            let left = v.saturating_sub(current);
            if left < 1 {
                1
            } else if left > HISTORICAL_PAGE_LIMIT as usize {
                HISTORICAL_PAGE_LIMIT
            } else {
                left as u32
            }
        },
    }
}

/// Whether `current` rows satisfy the limit.
pub fn reached_limit(limit: Option<usize>, current: usize) -> (r: bool)
    ensures
        r == (limit matches Some(v) && current >= v),
{
    match limit {
        Some(v) => current >= v,
        None => false,
    }
}

/// Keeps at most `limit` rows, dropping from the end.
pub fn truncate_to_limit<T>(values: &mut Vec<T>, limit: Option<usize>)
    ensures
        match limit {
            Some(v) => final(values)@ == old(values)@.take(
                if v <= old(values)@.len() {
                    v as int
                } else {
                    old(values)@.len() as int
                },
            ),
            None => final(values)@ == old(values)@,
        },
{
    if let Some(v) = limit {
        values.truncate(v);
    }
    proof {
        if let Some(v) = limit {
            if v > old(values)@.len() {
                assert(old(values)@.take(old(values)@.len() as int) =~= old(values)@);
            }
        }
    }
}

/// What one page of a historical listing decides: an error where a present page token
/// repeats, the end of the listing where no token follows or the limit is reached, and
/// otherwise the token of the next page.
pub open spec fn spec_historical_page_step(
    token: Option<Seq<char>>,
    next: Option<Seq<char>>,
    limit: Option<usize>,
    collected: usize,
    kind: HistoricalKind,
) -> Result<Option<Seq<char>>, DataRequestError> {
    if token is Some && next == token {
        Err(DataRequestError::PaginationStalled(kind))
    } else if next is None || (limit matches Some(v) && collected >= v) {
        Ok(None)
    } else {
        Ok(next)
    }
}

pub fn historical_page_step(
    token: &Option<String>,
    next: &Option<String>,
    limit: Option<usize>,
    collected: usize,
    kind: HistoricalKind,
) -> (r: Result<Option<String>, DataRequestError>)
    ensures
        match (r, spec_historical_page_step(
            opt_str_view(*token),
            opt_str_view(*next),
            limit,
            collected,
            kind,
        )) {
            (Ok(a), Ok(b)) => opt_str_view(a) == b,
            (Err(e), Err(s)) => e == s,
            _ => false,
        },
{
    let advanced = match token_page_step(token, next) {
        Ok(t) => t,
        Err(_) => {
            return Err(DataRequestError::PaginationStalled(kind));
        },
    };
    if advanced.is_none() || reached_limit(limit, collected) {
        Ok(None)
    } else {
        Ok(advanced)
    }
}

/// The parameters published with a historical response: the request's own parameters with
/// the provider, the effective feed and (for bars) the adjustment set.
pub open spec fn spec_response_params(
    params: Seq<(Seq<char>, ParamView)>,
    feed: AlpacaDataFeed,
    adjustment: Option<AlpacaBarAdjustment>,
) -> Seq<(Seq<char>, ParamView)> {
    let p = upserted(
        upserted(params, "provider"@, ParamView::Text("alpaca"@)),
        "feed"@,
        ParamView::Text(feed_name(feed)),
    );
    match adjustment {
        Some(a) => upserted(p, "adjustment"@, ParamView::Text(adjustment_name(a))),
        None => p,
    }
}

pub fn historical_response_params(
    params: Option<Vec<(String, ParamValue)>>,
    feed: AlpacaDataFeed,
    adjustment: Option<AlpacaBarAdjustment>,
) -> (r: Vec<(String, ParamValue)>)
    requires
        params matches Some(p) ==> keys_unique(params_view(p@)),
    ensures
        params_view(r@) == spec_response_params(
            match params {
                Some(p) => params_view(p@),
                None => Seq::empty(),
            },
            feed,
            adjustment,
        ),
        keys_unique(params_view(r@)),
{
    let mut out = match params {
        Some(p) => p,
        None => Vec::new(),
    };
    proof {
        assert(params_view(Seq::<(String, ParamValue)>::empty()) =~= Seq::empty());
    }
    upsert_param(&mut out, "provider", ParamValue::Text(String::from_str("alpaca")));
    upsert_param(&mut out, "feed", ParamValue::Text(String::from_str(feed.as_str())));
    if let Some(a) = adjustment {
        upsert_param(&mut out, "adjustment", ParamValue::Text(String::from_str(a.as_str())));
    }
    out
}

/// The lineage of a historical response: the provider, the effective feed and (for bars)
/// the adjustment are always the effective values, whatever the request carried under those
/// keys, and every other parameter of the request is kept as it was.
pub proof fn lemma_response_params_lineage(
    params: Seq<(Seq<char>, ParamView)>,
    feed: AlpacaDataFeed,
    adjustment: Option<AlpacaBarAdjustment>,
)
    requires
        keys_unique(params),
    ensures
        ({
            let r = spec_response_params(params, feed, adjustment);
            &&& keys_unique(r)
            &&& lookup(r, "provider"@) == Some(ParamView::Text("alpaca"@))
            &&& lookup(r, "feed"@) == Some(ParamView::Text(feed_name(feed)))
            &&& (adjustment matches Some(a) ==> lookup(r, "adjustment"@) == Some(
                ParamView::Text(adjustment_name(a)),
            ))
            &&& forall|k: Seq<char>|
                k != "provider"@ && k != "feed"@ && (adjustment is Some ==> k != "adjustment"@)
                    ==> #[trigger] lookup(r, k) == lookup(params, k)
        }),
{
    reveal_strlit("provider");
    reveal_strlit("feed");
    reveal_strlit("adjustment");
    let p1 = upserted(params, "provider"@, ParamView::Text("alpaca"@));
    lemma_upserted(params, "provider"@, ParamView::Text("alpaca"@));
    let p2 = upserted(p1, "feed"@, ParamView::Text(feed_name(feed)));
    lemma_upserted(p1, "feed"@, ParamView::Text(feed_name(feed)));
    assert("provider"@.len() != "feed"@.len());
    assert("adjustment"@.len() != "feed"@.len());
    assert("adjustment"@.len() != "provider"@.len());
    match adjustment {
        Some(a) => {
            lemma_upserted(p2, "adjustment"@, ParamView::Text(adjustment_name(a)));
        },
        None => {},
    }
}

/// The live channels a single-symbol request may name.
pub open spec fn is_single_symbol_channel(c: Seq<char>) -> bool {
    c == "quotes"@ || c == "trades"@ || c == "bars"@ || c == "dailyBars"@ || c == "statuses"@
}

/// A request for one symbol on one channel.
pub fn symbol_request(symbol: String, action: AlpacaWsAction, channel: &str) -> (r:
    AlpacaWsSubscription)
    requires
        is_single_symbol_channel(channel@),
    ensures
        r.action == action,
        forall|c: Seq<char>|
            #![trigger channel_list(r, c)]
            channel_list(r, c) == if c == channel@ {
                seq![symbol@]
            } else {
                Seq::<Seq<char>>::empty()
            },
{
    proof {
        reveal_strlit("trades");
        reveal_strlit("quotes");
        reveal_strlit("bars");
        reveal_strlit("dailyBars");
        reveal_strlit("updatedBars");
        reveal_strlit("statuses");
        reveal_strlit("lulds");
    }
    let mut request = AlpacaWsSubscription::empty(action);
    let ghost before = request;
    push_subscription_symbol(&mut request, channel, symbol);
    proof {
        assert forall|c: Seq<char>| #[trigger]
            channel_list(request, c) == if c == channel@ {
                seq![symbol@]
            } else {
                Seq::<Seq<char>>::empty()
            } by {
            if c == channel@ {
                assert(channel_list(before, c).push(symbol@) =~= seq![symbol@]);
            }
        }
    }
    request
}

/// The display form of an instrument id: `SYMBOL.VENUE`.
pub open spec fn instrument_text(symbol: Seq<char>, venue: Seq<char>) -> Seq<char> {
    symbol + "."@ + venue
}

impl InstrumentKey {
    /// `SYMBOL.VENUE`.
    pub fn text(&self) -> (r: String)
        ensures
            r@ == instrument_text(self.symbol@, self.venue@),
    {
        let mut out = self.symbol.clone();
        out.append(".");
        out.append(self.venue.as_str());
        out
    }
}

pub open spec fn key_in(loaded: Seq<InstrumentKey>, symbol: Seq<char>, venue: Seq<char>) -> bool {
    exists|i: int| 0 <= i < loaded.len() && #[trigger] loaded[i].symbol@ == symbol
        && loaded[i].venue@ == venue
}

/// Live subscriptions need an ALPACA instrument that was loaded.
pub fn validate_live_instrument(symbol: &str, venue: &str, loaded: &Vec<InstrumentKey>) -> (r:
    Result<(), DataRequestError>)
    ensures
        venue@ != "ALPACA"@ ==> (r matches Err(DataRequestError::WrongVenue(t)) && t@
            == instrument_text(symbol@, venue@)),
        venue@ == "ALPACA"@ && !key_in(loaded@, symbol@, venue@) ==> (r matches Err(
            DataRequestError::UnknownInstrument(t),
        ) && t@ == instrument_text(symbol@, venue@)),
        venue@ == "ALPACA"@ && key_in(loaded@, symbol@, venue@) ==> r is Ok,
{
    let key = InstrumentKey { symbol: String::from_str(symbol), venue: String::from_str(venue) };
    if !str_eq(venue, "ALPACA") {
        return Err(DataRequestError::WrongVenue(key.text()));
    }
    let mut i: usize = 0;
    while i < loaded.len()
        invariant
            0 <= i <= loaded.len(),
            venue@ == "ALPACA"@,
            forall|j: int|
                0 <= j < i ==> !(#[trigger] loaded@[j].symbol@ == symbol@ && loaded@[j].venue@
                    == venue@),
        decreases loaded.len() - i,
    {
        if str_eq(loaded[i].symbol.as_str(), symbol) && str_eq(loaded[i].venue.as_str(), venue) {
            return Ok(());
        }
        i = i + 1;
    }
    Err(DataRequestError::UnknownInstrument(key.text()))
}

/// The feed of historical ranges: the configured historical feed, else the live feed; it must
/// serve historical ranges.
pub fn historical_feed(config: &AlpacaDataClientConfig) -> (r: Result<AlpacaDataFeed, DataRequestError>)
    ensures
        ({
            let f = match config.historical_feed {
                Some(h) => h,
                None => config.feed,
            };
            if f is Iex || f is Sip || f is Boats || f is Otc {
                r == Ok::<AlpacaDataFeed, DataRequestError>(f)
            } else {
                (r matches Err(DataRequestError::UnsupportedHistoricalFeed(g)) && g == f)
            }
        }),
{
    let feed = config.effective_historical_feed();
    if !feed.supports_historical_ranges() {
        return Err(DataRequestError::UnsupportedHistoricalFeed(feed));
    }
    Ok(feed)
}

} // verus!
