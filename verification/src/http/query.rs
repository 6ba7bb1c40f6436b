use vstd::prelude::*;
use vstd::string::*;

use crate::common::enums::{feed_name, AlpacaBarAdjustment, AlpacaDataFeed};
use crate::common::text::{append_decimal, decimal_text};
use crate::config::bool_text;

verus! {

/// Query of an endpoint that takes no parameters.
#[derive(Clone, Copy, Debug, Default)]
pub struct AlpacaEmptyQuery {}

/// Query of the asset master.
#[derive(Clone, Debug, Default)]
pub struct AlpacaAssetsQuery<'a> {
    pub status: Option<&'a str>,
    pub asset_class: &'a str,
    pub exchange: Option<&'a str>,
    pub attributes: Option<&'a str>,
}

/// Query naming a market-data feed.
#[derive(Clone, Copy, Debug)]
pub struct AlpacaFeedQuery {
    pub feed: AlpacaDataFeed,
}

/// Query of stock snapshots.
#[derive(Clone, Copy, Debug)]
pub struct AlpacaSnapshotsQuery<'a> {
    pub symbols: &'a str,
    pub feed: AlpacaDataFeed,
}

/// Query of option contracts.
#[derive(Clone, Debug)]
pub struct AlpacaOptionContractsQuery<'a> {
    pub underlying_symbols: Option<&'a str>,
    pub show_deliverables: bool,
    pub status: &'a str,
    pub expiration_date: Option<&'a str>,
    pub expiration_date_gte: Option<&'a str>,
    pub expiration_date_lte: Option<&'a str>,
    pub root_symbol: Option<&'a str>,
    pub option_type: Option<&'a str>,
    pub style: Option<&'a str>,
    pub strike_price_gte: Option<&'a str>,
    pub strike_price_lte: Option<&'a str>,
    pub limit: u16,
    pub page_token: Option<&'a str>,
    pub ppind: Option<bool>,
}

/// Query of an option chain.
#[derive(Clone, Debug)]
pub struct AlpacaOptionChainQuery<'a> {
    pub feed: &'a str,
    pub limit: u16,
    pub updated_since: Option<&'a str>,
    pub page_token: Option<&'a str>,
    pub option_type: Option<&'a str>,
    pub strike_price_gte: Option<&'a str>,
    pub strike_price_lte: Option<&'a str>,
    pub expiration_date: Option<&'a str>,
    pub expiration_date_gte: Option<&'a str>,
    pub expiration_date_lte: Option<&'a str>,
    pub root_symbol: Option<&'a str>,
}

/// Query of option snapshots.
#[derive(Clone, Debug)]
pub struct AlpacaOptionSnapshotsQuery<'a> {
    pub symbols: &'a str,
    pub feed: &'a str,
    pub limit: u16,
    pub updated_since: Option<&'a str>,
    pub page_token: Option<&'a str>,
}

/// Query of the most active stocks.
#[derive(Clone, Copy, Debug)]
pub struct AlpacaMostActivesQuery<'a> {
    pub by: &'a str,
    pub top: u8,
}

/// Query of the top market movers.
#[derive(Clone, Copy, Debug)]
pub struct AlpacaMarketMoversQuery {
    pub top: u8,
}

/// Query of the trade or quote conditions of a tape.
#[derive(Clone, Copy, Debug)]
pub struct AlpacaConditionsQuery<'a> {
    pub tape: &'a str,
}

/// Query of corporate actions.
#[derive(Clone, Debug)]
pub struct AlpacaCorporateActionsQuery<'a> {
    pub symbols: Option<&'a str>,
    pub cusips: Option<&'a str>,
    pub action_types: Option<&'a str>,
    pub start: Option<&'a str>,
    pub end: Option<&'a str>,
    pub ids: Option<&'a str>,
    pub region: Option<&'a str>,
    pub data_quality: Option<&'a str>,
    pub limit: u16,
    pub sort: &'a str,
    pub page_token: Option<&'a str>,
}

/// Query of an order by its client order id.
#[derive(Clone, Debug)]
pub struct AlpacaClientOrderQuery<'a> {
    pub client_order_id: &'a str,
}

/// Query of a watchlist by name.
#[derive(Clone, Debug)]
pub struct AlpacaWatchlistNameQuery<'a> {
    pub name: &'a str,
}

/// Query of one order.
#[derive(Clone, Copy, Debug)]
pub struct AlpacaOrderQuery {
    pub nested: bool,
}

/// Query of the market calendar.
#[derive(Clone, Debug, Default)]
pub struct AlpacaCalendarQuery<'a> {
    pub start: Option<&'a str>,
    pub end: Option<&'a str>,
}

/// Query of historical stock bars; times are nanoseconds since the epoch.
#[derive(Clone, Debug)]
pub struct AlpacaBarsQuery<'a> {
    pub symbols: &'a str,
    pub timeframe: &'a str,
    pub start: i128,
    pub end: i128,
    pub limit: Option<u32>,
    pub adjustment: AlpacaBarAdjustment,
    pub feed: AlpacaDataFeed,
    pub asof: Option<&'a str>,
    pub page_token: Option<&'a str>,
}

/// Query of historical trades or quotes; times are nanoseconds since the epoch.
#[derive(Clone, Debug)]
pub struct AlpacaTicksQuery<'a> {
    pub symbols: &'a str,
    pub start: i128,
    pub end: i128,
    pub limit: u32,
    pub feed: AlpacaDataFeed,
    pub sort: &'static str,
    pub asof: Option<&'a str>,
    pub page_token: Option<&'a str>,
}

/// Query of account activities; times are nanoseconds since the epoch.
#[derive(Clone, Debug)]
pub struct AlpacaActivitiesQuery<'a> {
    pub direction: &'a str,
    pub page_size: u8,
    pub after: Option<i128>,
    pub until: Option<i128>,
    pub order_id: Option<&'a str>,
    pub page_token: Option<&'a str>,
}

impl<'a> AlpacaBarsQuery<'a> {
    /// A first page of bars with the venue's default limit.
    pub fn new(
        symbols: &'a str,
        timeframe: &'a str,
        start: i128,
        end: i128,
        feed: AlpacaDataFeed,
        adjustment: AlpacaBarAdjustment,
    ) -> (r: Self)
        ensures
            r.symbols == symbols && r.timeframe == timeframe,
            r.start == start && r.end == end,
            r.limit is None && r.asof is None && r.page_token is None,
            r.feed == feed && r.adjustment == adjustment,
    {
        AlpacaBarsQuery {
            symbols,
            timeframe,
            start,
            end,
            limit: None,
            adjustment,
            feed,
            asof: None,
            page_token: None,
        }
    }
}

impl<'a> AlpacaTicksQuery<'a> {
    /// A first page of ticks: the largest page, oldest first.
    pub fn new(symbols: &'a str, start: i128, end: i128, feed: AlpacaDataFeed) -> (r: Self)
        ensures
            r.symbols == symbols && r.start == start && r.end == end && r.feed == feed,
            r.limit == 10_000,
            r.sort@ == "asc"@,
            r.asof is None && r.page_token is None,
    {
        AlpacaTicksQuery {
            symbols,
            start,
            end,
            limit: 10_000,
            feed,
            sort: "asc",
            asof: None,
            page_token: None,
        }
    }
}

impl<'a> Default for AlpacaActivitiesQuery<'a> {
    /// Oldest first, one hundred per page, unbounded.
    fn default() -> (r: Self)
        ensures
            r.direction@ == "asc"@,
            r.page_size == 100,
            r.after is None && r.until is None && r.order_id is None && r.page_token is None,
    {
        AlpacaActivitiesQuery {
            direction: "asc",
            page_size: 100,
            after: None,
            until: None,
            order_id: None,
            page_token: None,
        }
    }
}

/// The query-string pairs of a query, in field order.
pub open spec fn pairs_view(v: Seq<(String, String)>) -> Seq<(Seq<char>, Seq<char>)> {
    v.map_values(|p: (String, String)| (p.0@, p.1@))
}

/// One pair.
pub open spec fn pair(key: Seq<char>, value: Seq<char>) -> Seq<(Seq<char>, Seq<char>)> {
    seq![(key, value)]
}

/// One pair where the value is present; absent values are left out of the query.
pub open spec fn opt_pair(key: Seq<char>, value: Option<&str>) -> Seq<(Seq<char>, Seq<char>)> {
    match value {
        Some(v) => seq![(key, v@)],
        None => Seq::empty(),
    }
}

fn push_pair(out: &mut Vec<(String, String)>, key: &str, value: String)
    ensures
        pairs_view(final(out)@) == pairs_view(old(out)@) + pair(key@, value@),
{
    out.push((String::from_str(key), value));
    assert(pairs_view(final(out)@) =~= pairs_view(old(out)@) + pair(key@, value@));
}

fn push_str(out: &mut Vec<(String, String)>, key: &str, value: &str)
    ensures
        pairs_view(final(out)@) == pairs_view(old(out)@) + pair(key@, value@),
{
    push_pair(out, key, String::from_str(value));
}

fn push_opt(out: &mut Vec<(String, String)>, key: &str, value: Option<&str>)
    ensures
        pairs_view(final(out)@) == pairs_view(old(out)@) + opt_pair(key@, value),
{
    if let Some(v) = value {
        push_pair(out, key, String::from_str(v));
    } else {
        assert(pairs_view(old(out)@) + opt_pair(key@, value) =~= pairs_view(old(out)@));
    }
}

fn push_number(out: &mut Vec<(String, String)>, key: &str, value: u64)
    ensures
        pairs_view(final(out)@) == pairs_view(old(out)@) + pair(key@, decimal_text(value as nat)),
{
    let mut text = String::new();
    append_decimal(&mut text, value);
    assert(text@ =~= decimal_text(value as nat));
    push_pair(out, key, text);
}

fn push_bool(out: &mut Vec<(String, String)>, key: &str, value: bool)
    ensures
        pairs_view(final(out)@) == pairs_view(old(out)@) + pair(key@, bool_text(value)),
{
    if value {
        push_str(out, key, "true");
    } else {
        push_str(out, key, "false");
    }
}

fn start() -> (r: Vec<(String, String)>)
    ensures
        pairs_view(r@) == Seq::<(Seq<char>, Seq<char>)>::empty(),
{
    let r: Vec<(String, String)> = Vec::new();
    assert(pairs_view(r@) =~= Seq::<(Seq<char>, Seq<char>)>::empty());
    r
}

impl AlpacaEmptyQuery {
    pub fn pairs(&self) -> (r: Vec<(String, String)>)
        ensures
            pairs_view(r@) == Seq::<(Seq<char>, Seq<char>)>::empty(),
    {
        start()
    }
}

impl<'a> AlpacaAssetsQuery<'a> {
    /// Active US equities: the universe the instrument provider loads.
    pub fn active_us_equities() -> (r: Self)
        ensures
            r.status matches Some(s) && s@ == "active"@,
            r.asset_class@ == "us_equity"@,
            r.exchange is None,
            r.attributes is None,
    {
        AlpacaAssetsQuery {
            status: Some("active"),
            asset_class: "us_equity",
            exchange: None,
            attributes: None,
        }
    }

    pub fn pairs(&self) -> (r: Vec<(String, String)>)
        ensures
            pairs_view(r@) == opt_pair("status"@, self.status) + pair(
                "asset_class"@,
                self.asset_class@,
            ) + opt_pair("exchange"@, self.exchange) + opt_pair("attributes"@, self.attributes),
    {
        let mut r = start();
        push_opt(&mut r, "status", self.status);
        push_str(&mut r, "asset_class", self.asset_class);
        push_opt(&mut r, "exchange", self.exchange);
        push_opt(&mut r, "attributes", self.attributes);
        r
    }
}

impl AlpacaFeedQuery {
    pub fn pairs(&self) -> (r: Vec<(String, String)>)
        ensures
            pairs_view(r@) == pair("feed"@, feed_name(self.feed)),
    {
        let mut r = start();
        push_str(&mut r, "feed", self.feed.as_str());
        r
    }
}

impl<'a> AlpacaSnapshotsQuery<'a> {
    pub fn pairs(&self) -> (r: Vec<(String, String)>)
        ensures
            pairs_view(r@) == pair("symbols"@, self.symbols@) + pair("feed"@, feed_name(self.feed)),
    {
        let mut r = start();
        push_str(&mut r, "symbols", self.symbols);
        push_str(&mut r, "feed", self.feed.as_str());
        r
    }
}

pub open spec fn opt_bool_pair(key: Seq<char>, value: Option<bool>) -> Seq<(Seq<char>, Seq<char>)> {
    match value {
        Some(b) => seq![(key, bool_text(b))],
        None => Seq::empty(),
    }
}

impl<'a> AlpacaOptionContractsQuery<'a> {
    pub fn pairs(&self) -> (r: Vec<(String, String)>)
        ensures
            pairs_view(r@) == opt_pair("underlying_symbols"@, self.underlying_symbols) + pair(
                "show_deliverables"@,
                bool_text(self.show_deliverables),
            ) + pair("status"@, self.status@) + opt_pair("expiration_date"@, self.expiration_date)
                + opt_pair("expiration_date_gte"@, self.expiration_date_gte) + opt_pair(
                "expiration_date_lte"@,
                self.expiration_date_lte,
            ) + opt_pair("root_symbol"@, self.root_symbol) + opt_pair("type"@, self.option_type)
                + opt_pair("style"@, self.style) + opt_pair(
                "strike_price_gte"@,
                self.strike_price_gte,
            ) + opt_pair("strike_price_lte"@, self.strike_price_lte) + pair(
                "limit"@,
                decimal_text(self.limit as nat),
            ) + opt_pair("page_token"@, self.page_token) + opt_bool_pair("ppind"@, self.ppind),
    {
        let mut r = start();
        push_opt(&mut r, "underlying_symbols", self.underlying_symbols);
        push_bool(&mut r, "show_deliverables", self.show_deliverables);
        push_str(&mut r, "status", self.status);
        push_opt(&mut r, "expiration_date", self.expiration_date);
        push_opt(&mut r, "expiration_date_gte", self.expiration_date_gte);
        push_opt(&mut r, "expiration_date_lte", self.expiration_date_lte);
        push_opt(&mut r, "root_symbol", self.root_symbol);
        push_opt(&mut r, "type", self.option_type);
        push_opt(&mut r, "style", self.style);
        push_opt(&mut r, "strike_price_gte", self.strike_price_gte);
        push_opt(&mut r, "strike_price_lte", self.strike_price_lte);
        push_number(&mut r, "limit", self.limit as u64);
        push_opt(&mut r, "page_token", self.page_token);
        match self.ppind {
            Some(b) => push_bool(&mut r, "ppind", b),
            None => {
                assert(pairs_view(r@) + opt_bool_pair("ppind"@, self.ppind) =~= pairs_view(r@));
            },
        }
        r
    }
}

impl<'a> AlpacaOptionChainQuery<'a> {
    pub fn pairs(&self) -> (r: Vec<(String, String)>)
        ensures
            pairs_view(r@) == pair("feed"@, self.feed@) + pair(
                "limit"@,
                decimal_text(self.limit as nat),
            ) + opt_pair("updated_since"@, self.updated_since) + opt_pair(
                "page_token"@,
                self.page_token,
            ) + opt_pair("type"@, self.option_type) + opt_pair(
                "strike_price_gte"@,
                self.strike_price_gte,
            ) + opt_pair("strike_price_lte"@, self.strike_price_lte) + opt_pair(
                "expiration_date"@,
                self.expiration_date,
            ) + opt_pair("expiration_date_gte"@, self.expiration_date_gte) + opt_pair(
                "expiration_date_lte"@,
                self.expiration_date_lte,
            ) + opt_pair("root_symbol"@, self.root_symbol),
    {
        let mut r = start();
        push_str(&mut r, "feed", self.feed);
        push_number(&mut r, "limit", self.limit as u64);
        push_opt(&mut r, "updated_since", self.updated_since);
        push_opt(&mut r, "page_token", self.page_token);
        push_opt(&mut r, "type", self.option_type);
        push_opt(&mut r, "strike_price_gte", self.strike_price_gte);
        push_opt(&mut r, "strike_price_lte", self.strike_price_lte);
        push_opt(&mut r, "expiration_date", self.expiration_date);
        push_opt(&mut r, "expiration_date_gte", self.expiration_date_gte);
        push_opt(&mut r, "expiration_date_lte", self.expiration_date_lte);
        push_opt(&mut r, "root_symbol", self.root_symbol);
        r
    }
}

impl<'a> AlpacaOptionSnapshotsQuery<'a> {
    pub fn pairs(&self) -> (r: Vec<(String, String)>)
        ensures
            pairs_view(r@) == pair("symbols"@, self.symbols@) + pair("feed"@, self.feed@) + pair(
                "limit"@,
                decimal_text(self.limit as nat),
            ) + opt_pair("updated_since"@, self.updated_since) + opt_pair(
                "page_token"@,
                self.page_token,
            ),
    {
        let mut r = start();
        push_str(&mut r, "symbols", self.symbols);
        push_str(&mut r, "feed", self.feed);
        push_number(&mut r, "limit", self.limit as u64);
        push_opt(&mut r, "updated_since", self.updated_since);
        push_opt(&mut r, "page_token", self.page_token);
        r
    }
}

impl<'a> AlpacaMostActivesQuery<'a> {
    pub fn pairs(&self) -> (r: Vec<(String, String)>)
        ensures
            pairs_view(r@) == pair("by"@, self.by@) + pair("top"@, decimal_text(self.top as nat)),
    {
        let mut r = start();
        push_str(&mut r, "by", self.by);
        push_number(&mut r, "top", self.top as u64);
        r
    }
}

impl AlpacaMarketMoversQuery {
    pub fn pairs(&self) -> (r: Vec<(String, String)>)
        ensures
            pairs_view(r@) == pair("top"@, decimal_text(self.top as nat)),
    {
        let mut r = start();
        push_number(&mut r, "top", self.top as u64);
        r
    }
}

impl<'a> AlpacaConditionsQuery<'a> {
    pub fn pairs(&self) -> (r: Vec<(String, String)>)
        ensures
            pairs_view(r@) == pair("tape"@, self.tape@),
    {
        let mut r = start();
        push_str(&mut r, "tape", self.tape);
        r
    }
}

impl<'a> AlpacaCorporateActionsQuery<'a> {
    pub fn pairs(&self) -> (r: Vec<(String, String)>)
        ensures
            pairs_view(r@) == opt_pair("symbols"@, self.symbols) + opt_pair("cusips"@, self.cusips)
                + opt_pair("types"@, self.action_types) + opt_pair("start"@, self.start) + opt_pair(
                "end"@,
                self.end,
            ) + opt_pair("ids"@, self.ids) + opt_pair("region"@, self.region) + opt_pair(
                "data_quality"@,
                self.data_quality,
            ) + pair("limit"@, decimal_text(self.limit as nat)) + pair("sort"@, self.sort@)
                + opt_pair("page_token"@, self.page_token),
    {
        let mut r = start();
        push_opt(&mut r, "symbols", self.symbols);
        push_opt(&mut r, "cusips", self.cusips);
        push_opt(&mut r, "types", self.action_types);
        push_opt(&mut r, "start", self.start);
        push_opt(&mut r, "end", self.end);
        push_opt(&mut r, "ids", self.ids);
        push_opt(&mut r, "region", self.region);
        push_opt(&mut r, "data_quality", self.data_quality);
        push_number(&mut r, "limit", self.limit as u64);
        push_str(&mut r, "sort", self.sort);
        push_opt(&mut r, "page_token", self.page_token);
        r
    }
}

impl<'a> AlpacaClientOrderQuery<'a> {
    pub fn pairs(&self) -> (r: Vec<(String, String)>)
        ensures
            pairs_view(r@) == pair("client_order_id"@, self.client_order_id@),
    {
        let mut r = start();
        push_str(&mut r, "client_order_id", self.client_order_id);
        r
    }
}

impl<'a> AlpacaWatchlistNameQuery<'a> {
    pub fn pairs(&self) -> (r: Vec<(String, String)>)
        ensures
            pairs_view(r@) == pair("name"@, self.name@),
    {
        let mut r = start();
        push_str(&mut r, "name", self.name);
        r
    }
}

impl AlpacaOrderQuery {
    pub fn pairs(&self) -> (r: Vec<(String, String)>)
        ensures
            pairs_view(r@) == pair("nested"@, bool_text(self.nested)),
    {
        let mut r = start();
        push_bool(&mut r, "nested", self.nested);
        r
    }
}

impl<'a> AlpacaCalendarQuery<'a> {
    pub fn pairs(&self) -> (r: Vec<(String, String)>)
        ensures
            pairs_view(r@) == opt_pair("start"@, self.start) + opt_pair("end"@, self.end),
    {
        let mut r = start();
        push_opt(&mut r, "start", self.start);
        push_opt(&mut r, "end", self.end);
        r
    }
}

} // verus!
