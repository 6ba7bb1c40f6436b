use vstd::prelude::*;
use vstd::string::*;

use crate::common::enums::{
    adjustment_name, data_environment_name, environment_name, feed_name, AlpacaBarAdjustment,
    AlpacaDataEnvironment, AlpacaDataFeed, AlpacaEnvironment,
};
use crate::common::text::{append_decimal, blank, decimal_text, is_blank, str_eq};
use crate::common::urls::{
    data_http_url, data_ws_url, spec_data_ws_url, spec_trading_http_url, spec_trading_ws_url,
    trading_http_url, trading_ws_url,
};
use crate::data::{instrument_text, InstrumentKey};

verus! {

/// Default HTTP timeout of both clients, in seconds.
pub const DEFAULT_HTTP_TIMEOUT_SECS: u64 = 10;

/// Default number of retries of idempotent HTTP reads.
pub const DEFAULT_HTTP_MAX_RETRIES: u32 = 3;

/// Account types of the trading engine; Alpaca accounts are cash or margin accounts.
#[derive(Copy, Clone, Debug, PartialEq, Eq, Structural)]
pub enum AccountType {
    Cash,
    Margin,
    Betting,
    Wallet,
}

pub open spec fn account_type_name(a: AccountType) -> Seq<char> {
    match a {
        AccountType::Cash => "CASH"@,
        AccountType::Margin => "MARGIN"@,
        AccountType::Betting => "BETTING"@,
        AccountType::Wallet => "WALLET"@,
    }
}

impl AccountType {
    /// Upper-case display name.
    pub fn as_str(self) -> (r: &'static str)
        ensures
            r@ == account_type_name(self),
    {
        match self {
            AccountType::Cash => "CASH",
            AccountType::Margin => "MARGIN",
            AccountType::Betting => "BETTING",
            AccountType::Wallet => "WALLET",
        }
    }
}

/// Why a client configuration is refused before any connection is made.
#[derive(Clone, Debug)]
pub enum ConfigError {
    /// OTC is historical-only and cannot be the live feed.
    HistoricalOnlyLiveFeed,
    UnsupportedHistoricalFeed(AlpacaDataFeed),
    ZeroTimeout,
    EmptyInstrumentIds,
    /// An instrument of another venue (carries the instrument id).
    WrongVenue(String),
    UnsupportedAccountType(AccountType),
}

/// Settings of the market-data client.
#[derive(Clone, Debug)]
pub struct AlpacaDataClientConfig {
    pub api_key: Option<String>,
    pub api_secret: Option<String>,
    pub base_url_data_http: Option<String>,
    pub base_url_trading_http: Option<String>,
    pub base_url_data_ws: Option<String>,
    pub proxy_url: Option<String>,
    /// Instruments to load on connect; without them the whole active equity universe loads.
    pub instrument_ids: Option<Vec<InstrumentKey>>,
    pub data_environment: AlpacaDataEnvironment,
    pub trading_environment: AlpacaEnvironment,
    pub feed: AlpacaDataFeed,
    /// Feed of historical ranges; the live feed when absent.
    pub historical_feed: Option<AlpacaDataFeed>,
    pub bar_adjustment: AlpacaBarAdjustment,
    pub http_timeout_secs: u64,
    pub http_max_retries: u32,
}

/// Settings of the execution client.
#[derive(Clone, Debug)]
pub struct AlpacaExecutionClientConfig {
    pub account_id: String,
    pub api_key: Option<String>,
    pub api_secret: Option<String>,
    pub base_url_trading_http: Option<String>,
    pub base_url_trading_ws: Option<String>,
    pub proxy_url: Option<String>,
    pub environment: AlpacaEnvironment,
    pub account_type: AccountType,
    pub http_timeout_secs: u64,
    pub http_max_retries: u32,
    pub extended_hours: bool,
}

impl Default for AlpacaDataClientConfig {
    fn default() -> (r: Self)
        ensures
            r.api_key is None && r.api_secret is None && r.proxy_url is None,
            r.base_url_data_http is None && r.base_url_trading_http is None
                && r.base_url_data_ws is None,
            r.instrument_ids is None,
            r.data_environment == AlpacaDataEnvironment::Live,
            r.trading_environment == AlpacaEnvironment::Paper,
            r.feed == AlpacaDataFeed::Iex,
            r.historical_feed is None,
            r.bar_adjustment == AlpacaBarAdjustment::Raw,
            r.http_timeout_secs == DEFAULT_HTTP_TIMEOUT_SECS,
            r.http_max_retries == DEFAULT_HTTP_MAX_RETRIES,
    {
        AlpacaDataClientConfig {
            api_key: None,
            api_secret: None,
            base_url_data_http: None,
            base_url_trading_http: None,
            base_url_data_ws: None,
            proxy_url: None,
            instrument_ids: None,
            data_environment: AlpacaDataEnvironment::Live,
            trading_environment: AlpacaEnvironment::Paper,
            feed: AlpacaDataFeed::Iex,
            historical_feed: None,
            bar_adjustment: AlpacaBarAdjustment::Raw,
            http_timeout_secs: DEFAULT_HTTP_TIMEOUT_SECS,
            http_max_retries: DEFAULT_HTTP_MAX_RETRIES,
        }
    }
}

impl Default for AlpacaExecutionClientConfig {
    fn default() -> (r: Self)
        ensures
            r.account_id@ == "ALPACA-001"@,
            r.api_key is None && r.api_secret is None && r.proxy_url is None,
            r.base_url_trading_http is None && r.base_url_trading_ws is None,
            r.environment == AlpacaEnvironment::Paper,
            r.account_type == AccountType::Margin,
            r.http_timeout_secs == DEFAULT_HTTP_TIMEOUT_SECS,
            r.http_max_retries == DEFAULT_HTTP_MAX_RETRIES,
            !r.extended_hours,
    {
        AlpacaExecutionClientConfig {
            account_id: String::from_str("ALPACA-001"),
            api_key: None,
            api_secret: None,
            base_url_trading_http: None,
            base_url_trading_ws: None,
            proxy_url: None,
            environment: AlpacaEnvironment::Paper,
            account_type: AccountType::Margin,
            http_timeout_secs: DEFAULT_HTTP_TIMEOUT_SECS,
            http_max_retries: DEFAULT_HTTP_MAX_RETRIES,
            extended_hours: false,
        }
    }
}

pub open spec fn bool_text(b: bool) -> Seq<char> {
    if b {
        "true"@
    } else {
        "false"@
    }
}

pub open spec fn opt_text(s: Option<String>) -> Option<Seq<char>> {
    match s {
        Some(v) => Some(v@),
        None => None,
    }
}

pub open spec fn spec_effective_historical_feed(c: AlpacaDataClientConfig) -> AlpacaDataFeed {
    match c.historical_feed {
        Some(f) => f,
        None => c.feed,
    }
}

pub open spec fn instrument_count(c: AlpacaDataClientConfig) -> nat {
    match c.instrument_ids {
        Some(v) => v@.len(),
        None => 0,
    }
}

/// The diagnostic summary of a market-data configuration: enums, counts and flags only.
pub open spec fn spec_data_safe_repr(c: AlpacaDataClientConfig) -> Seq<char> {
    "AlpacaDataClientConfig(data_environment="@ + data_environment_name(c.data_environment)
        + ", trading_environment="@ + environment_name(c.trading_environment) + ", feed="@
        + feed_name(c.feed) + ", historical_feed="@ + feed_name(
        spec_effective_historical_feed(c),
    ) + ", bar_adjustment="@ + adjustment_name(c.bar_adjustment) + ", instrument_count="@
        + decimal_text(instrument_count(c)) + ", http_timeout_secs="@ + decimal_text(
        c.http_timeout_secs as nat,
    ) + ", http_max_retries="@ + decimal_text(c.http_max_retries as nat) + ", has_credentials="@
        + bool_text(c.api_key is Some && c.api_secret is Some) + ", has_proxy_url="@ + bool_text(
        c.proxy_url is Some,
    ) + ")"@
}

/// The diagnostic summary of an execution configuration: identifiers, enums, counts and flags.
pub open spec fn spec_execution_safe_repr(c: AlpacaExecutionClientConfig) -> Seq<char> {
    "AlpacaExecutionClientConfig(account_id="@ + c.account_id@ + ", environment="@
        + environment_name(c.environment) + ", account_type="@ + account_type_name(
        c.account_type,
    ) + ", extended_hours="@ + bool_text(c.extended_hours) + ", http_timeout_secs="@
        + decimal_text(c.http_timeout_secs as nat) + ", http_max_retries="@ + decimal_text(
        c.http_max_retries as nat,
    ) + ", has_credentials="@ + bool_text(c.api_key is Some && c.api_secret is Some)
        + ", has_proxy_url="@ + bool_text(c.proxy_url is Some) + ")"@
}

fn append_bool(out: &mut String, b: bool)
    ensures
        final(out)@ == old(out)@ + bool_text(b),
{
    if b {
        out.append("true");
    } else {
        out.append("false");
    }
}

fn override_or(value: &Option<String>, default: &str) -> (r: String)
    ensures
        r@ == match value {
            Some(v) => v@,
            None => default@,
        },
{
    match value {
        Some(v) => v.clone(),
        None => String::from_str(default),
    }
}

pub open spec fn wrong_venue_at(ids: Seq<InstrumentKey>, i: int) -> bool {
    ids[i].venue@ != "ALPACA"@
}

pub open spec fn all_alpaca(ids: Seq<InstrumentKey>) -> bool {
    forall|i: int| 0 <= i < ids.len() ==> !#[trigger] wrong_venue_at(ids, i)
}

pub open spec fn first_wrong_venue(ids: Seq<InstrumentKey>, i: int) -> bool {
    &&& 0 <= i < ids.len()
    &&& wrong_venue_at(ids, i)
    &&& forall|j: int| 0 <= j < i ==> !#[trigger] wrong_venue_at(ids, j)
}

/// A credential value counts where it is set and not blank.
pub open spec fn usable_secret(value: Option<String>) -> bool {
    value matches Some(v) && !is_blank(v@)
}

fn usable(value: &Option<String>) -> (r: bool)
    ensures
        r == usable_secret(*value),
{
    match value {
        Some(v) => !blank(v.as_str()),
        None => false,
    }
}

impl AlpacaDataClientConfig {
    /// What `validate` accepts.
    pub open spec fn validate_ok(&self) -> bool {
        let f = spec_effective_historical_feed(*self);
        &&& !(self.feed is Otc)
        &&& (f is Iex || f is Sip || f is Boats || f is Otc)
        &&& self.http_timeout_secs > 0
        &&& self.instrument_ids matches Some(ids) ==> ids@.len() > 0 && all_alpaca(ids@)
    }

    /// Both the API key and the secret are configured and not blank.
    pub fn has_credentials(&self) -> (r: bool)
        ensures
            r == (usable_secret(self.api_key) && usable_secret(self.api_secret)),
    {
        usable(&self.api_key) && usable(&self.api_secret)
    }

    /// The historical feed, or the live feed where none is configured.
    pub fn effective_historical_feed(&self) -> (r: AlpacaDataFeed)
        ensures
            r == spec_effective_historical_feed(*self),
    {
        match self.historical_feed {
            Some(f) => f,
            None => self.feed,
        }
    }

    pub fn data_http_url(&self) -> (r: String)
        ensures
            r@ == match self.base_url_data_http {
                Some(u) => u@,
                None => "https://data.alpaca.markets"@,
            },
    {
        override_or(&self.base_url_data_http, data_http_url())
    }

    pub fn trading_http_url(&self) -> (r: String)
        ensures
            r@ == match self.base_url_trading_http {
                Some(u) => u@,
                None => spec_trading_http_url(self.trading_environment),
            },
    {
        override_or(&self.base_url_trading_http, trading_http_url(self.trading_environment))
    }

    pub fn data_ws_url(&self) -> (r: String)
        ensures
            r@ == match self.base_url_data_ws {
                Some(u) => u@,
                None => spec_data_ws_url(self.data_environment, self.feed),
            },
    {
        match &self.base_url_data_ws {
            Some(u) => u.clone(),
            None => data_ws_url(self.data_environment, self.feed),
        }
    }

    /// Checks the settings before any connection: a live-capable feed, a historical feed that
    /// serves ranges, a positive timeout, and a non-empty list of ALPACA instruments when one
    /// is given.
    pub fn validate(&self) -> (r: Result<(), ConfigError>)
        ensures
            self.feed is Otc ==> r matches Err(ConfigError::HistoricalOnlyLiveFeed),
            !(self.feed is Otc) && !({
                let f = spec_effective_historical_feed(*self);
                f is Iex || f is Sip || f is Boats || f is Otc
            }) ==> (r matches Err(ConfigError::UnsupportedHistoricalFeed(f)) && f
                == spec_effective_historical_feed(*self)),
            r is Ok <==> self.validate_ok(),
            r matches Err(ConfigError::ZeroTimeout) ==> self.http_timeout_secs == 0,
            r matches Err(ConfigError::EmptyInstrumentIds) ==> (self.instrument_ids matches Some(
                ids,
            ) && ids@.len() == 0),
            r matches Err(ConfigError::WrongVenue(t)) ==> (self.instrument_ids matches Some(ids)
                && exists|i: int| #[trigger]
                    first_wrong_venue(ids@, i) && t@ == instrument_text(
                        ids@[i].symbol@,
                        ids@[i].venue@,
                    )),
    {
        if !self.feed.supports_live_streaming() {
            return Err(ConfigError::HistoricalOnlyLiveFeed);
        }
        let historical = self.effective_historical_feed();
        if !historical.supports_historical_ranges() {
            return Err(ConfigError::UnsupportedHistoricalFeed(historical));
        }
        if self.http_timeout_secs == 0 {
            return Err(ConfigError::ZeroTimeout);
        }
        if let Some(ids) = &self.instrument_ids {
            if ids.len() == 0 {
                return Err(ConfigError::EmptyInstrumentIds);
            }
            let mut i: usize = 0;
            while i < ids.len()
                invariant
                    0 <= i <= ids.len(),
                    forall|j: int| 0 <= j < i ==> !#[trigger] wrong_venue_at(ids@, j),
                    self.instrument_ids == Some(*ids),
                    !(self.feed is Otc),
                    ({
                        let f = spec_effective_historical_feed(*self);
                        f is Iex || f is Sip || f is Boats || f is Otc
                    }),
                    self.http_timeout_secs > 0,
                decreases ids.len() - i,
            {
                if !str_eq(ids[i].venue.as_str(), "ALPACA") {
                    let t = ids[i].text();
                    assert(first_wrong_venue(ids@, i as int) && t@ == instrument_text(
                        ids@[i as int].symbol@,
                        ids@[i as int].venue@,
                    ));
                    assert(exists|k: int| #[trigger]
                        first_wrong_venue(ids@, k) && t@ == instrument_text(
                            ids@[k].symbol@,
                            ids@[k].venue@,
                        ));
                    return Err(ConfigError::WrongVenue(t));
                }
                i = i + 1;
            }
        }
        Ok(())
    }

    /// A summary for logs that leaves out credentials, proxy and custom URLs, which may hold
    /// secrets.
    pub fn safe_repr(&self) -> (r: String)
        ensures
            r@ == spec_data_safe_repr(*self),
    {
        let mut out = String::from_str("AlpacaDataClientConfig(data_environment=");
        out.append(self.data_environment.as_str());
        out.append(", trading_environment=");
        out.append(self.trading_environment.as_str());
        out.append(", feed=");
        out.append(self.feed.as_str());
        out.append(", historical_feed=");
        out.append(self.effective_historical_feed().as_str());
        out.append(", bar_adjustment=");
        out.append(self.bar_adjustment.as_str());
        out.append(", instrument_count=");
        let count: usize = match &self.instrument_ids {
            Some(v) => v.len(),
            None => 0,
        };
        append_decimal(&mut out, count as u64);
        out.append(", http_timeout_secs=");
        append_decimal(&mut out, self.http_timeout_secs);
        out.append(", http_max_retries=");
        append_decimal(&mut out, self.http_max_retries as u64);
        out.append(", has_credentials=");
        append_bool(&mut out, self.api_key.is_some() && self.api_secret.is_some());
        out.append(", has_proxy_url=");
        append_bool(&mut out, self.proxy_url.is_some());
        out.append(")");
        out
    }
}

impl AlpacaExecutionClientConfig {
    /// Both the API key and the secret are configured and not blank.
    pub fn has_credentials(&self) -> (r: bool)
        ensures
            r == (usable_secret(self.api_key) && usable_secret(self.api_secret)),
    {
        usable(&self.api_key) && usable(&self.api_secret)
    }

    pub fn trading_http_url(&self) -> (r: String)
        ensures
            r@ == match self.base_url_trading_http {
                Some(u) => u@,
                None => spec_trading_http_url(self.environment),
            },
    {
        override_or(&self.base_url_trading_http, trading_http_url(self.environment))
    }

    pub fn trading_ws_url(&self) -> (r: String)
        ensures
            r@ == match self.base_url_trading_ws {
                Some(u) => u@,
                None => spec_trading_ws_url(self.environment),
            },
    {
        match &self.base_url_trading_ws {
            Some(u) => u.clone(),
            None => trading_ws_url(self.environment),
        }
    }

    /// Checks the settings before any connection: a cash or margin account and a positive
    /// timeout.
    pub fn validate(&self) -> (r: Result<(), ConfigError>)
        ensures
            !(self.account_type is Cash || self.account_type is Margin) ==> (r matches Err(
                ConfigError::UnsupportedAccountType(a),
            ) && a == self.account_type),
            (self.account_type is Cash || self.account_type is Margin) && self.http_timeout_secs
                == 0 ==> r matches Err(ConfigError::ZeroTimeout),
            r is Ok <==> ((self.account_type is Cash || self.account_type is Margin)
                && self.http_timeout_secs > 0),
    {
        if !matches!(self.account_type, AccountType::Cash | AccountType::Margin) {
            return Err(ConfigError::UnsupportedAccountType(self.account_type));
        }
        if self.http_timeout_secs == 0 {
            return Err(ConfigError::ZeroTimeout);
        }
        Ok(())
    }

    /// A summary for logs that leaves out credentials, proxy and custom URLs, which may hold
    /// secrets.
    pub fn safe_repr(&self) -> (r: String)
        ensures
            r@ == spec_execution_safe_repr(*self),
    {
        let mut out = String::from_str("AlpacaExecutionClientConfig(account_id=");
        out.append(self.account_id.as_str());
        out.append(", environment=");
        out.append(self.environment.as_str());
        out.append(", account_type=");
        out.append(self.account_type.as_str());
        out.append(", extended_hours=");
        append_bool(&mut out, self.extended_hours);
        out.append(", http_timeout_secs=");
        append_decimal(&mut out, self.http_timeout_secs);
        out.append(", http_max_retries=");
        append_decimal(&mut out, self.http_max_retries as u64);
        out.append(", has_credentials=");
        append_bool(&mut out, self.api_key.is_some() && self.api_secret.is_some());
        out.append(", has_proxy_url=");
        append_bool(&mut out, self.proxy_url.is_some());
        out.append(")");
        out
    }
}

/// Two market-data configurations that differ only in credentials, proxy and custom URLs
/// (with the same presence of credentials and proxy) have the same summary: no secret reaches
/// it.
pub proof fn lemma_data_safe_repr_hides_secrets(a: AlpacaDataClientConfig, b: AlpacaDataClientConfig)
    requires
        a.data_environment == b.data_environment,
        a.trading_environment == b.trading_environment,
        a.feed == b.feed,
        a.historical_feed == b.historical_feed,
        a.bar_adjustment == b.bar_adjustment,
        instrument_count(a) == instrument_count(b),
        a.http_timeout_secs == b.http_timeout_secs,
        a.http_max_retries == b.http_max_retries,
        (a.api_key is Some && a.api_secret is Some) == (b.api_key is Some && b.api_secret is Some),
        a.proxy_url is Some == b.proxy_url is Some,
    ensures
        spec_data_safe_repr(a) == spec_data_safe_repr(b),
{
}

/// Two execution configurations that differ only in credentials, proxy and custom URLs (with
/// the same presence of credentials and proxy) have the same summary.
pub proof fn lemma_execution_safe_repr_hides_secrets(
    a: AlpacaExecutionClientConfig,
    b: AlpacaExecutionClientConfig,
)
    requires
        a.account_id@ == b.account_id@,
        a.environment == b.environment,
        a.account_type == b.account_type,
        a.extended_hours == b.extended_hours,
        a.http_timeout_secs == b.http_timeout_secs,
        a.http_max_retries == b.http_max_retries,
        (a.api_key is Some && a.api_secret is Some) == (b.api_key is Some && b.api_secret is Some),
        a.proxy_url is Some == b.proxy_url is Some,
    ensures
        spec_execution_safe_repr(a) == spec_execution_safe_repr(b),
{
}

} // verus!
