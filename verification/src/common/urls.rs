use vstd::prelude::*;
use vstd::string::*;

use crate::common::consts::{
    ALPACA_DATA_HTTP_URL, ALPACA_DATA_SANDBOX_WS_URL, ALPACA_DATA_WS_URL,
    ALPACA_LIVE_TRADING_HTTP_URL, ALPACA_PAPER_TRADING_HTTP_URL,
};
use crate::common::enums::{
    AlpacaDataEnvironment, AlpacaDataFeed, AlpacaEnvironment, feed_name,
};

verus! {

pub open spec fn spec_data_ws_base(environment: AlpacaDataEnvironment) -> Seq<char> {
    match environment {
        AlpacaDataEnvironment::Live => "wss://stream.data.alpaca.markets"@,
        AlpacaDataEnvironment::Sandbox => "wss://stream.data.sandbox.alpaca.markets"@,
    }
}

/// Protocol version of the stream path: BOATS and overnight are served under `v1beta1`.
pub open spec fn spec_feed_stream_version(feed: AlpacaDataFeed) -> Seq<char> {
    match feed {
        AlpacaDataFeed::Boats | AlpacaDataFeed::Overnight => "v1beta1"@,
        _ => "v2"@,
    }
}

pub open spec fn spec_data_ws_url(environment: AlpacaDataEnvironment, feed: AlpacaDataFeed) -> Seq<char> {
    spec_data_ws_base(environment) + "/"@ + spec_feed_stream_version(feed) + "/"@ + feed_name(feed)
}

pub open spec fn spec_trading_http_url(environment: AlpacaEnvironment) -> Seq<char> {
    match environment {
        AlpacaEnvironment::Live => "https://api.alpaca.markets"@,
        AlpacaEnvironment::Paper => "https://paper-api.alpaca.markets"@,
    }
}

/// The trading stream lives on the trading host, with `https://` replaced by `wss://`.
pub open spec fn spec_trading_ws_url(environment: AlpacaEnvironment) -> Seq<char> {
    let http = spec_trading_http_url(environment);
    "wss://"@ + http.subrange(8, http.len() as int) + "/stream"@
}

/// Base URL of the market-data REST API.
pub fn data_http_url() -> (r: &'static str)
    ensures
        r@ == "https://data.alpaca.markets"@,
{
    ALPACA_DATA_HTTP_URL
}

/// Market-data stream URL for an environment and feed.
pub fn data_ws_url(environment: AlpacaDataEnvironment, feed: AlpacaDataFeed) -> (r: String)
    ensures
        r@ == spec_data_ws_url(environment, feed),
{
    let base = match environment {
        AlpacaDataEnvironment::Live => ALPACA_DATA_WS_URL,
        AlpacaDataEnvironment::Sandbox => ALPACA_DATA_SANDBOX_WS_URL,
    };
    let version = match feed {
        AlpacaDataFeed::Iex | AlpacaDataFeed::Sip | AlpacaDataFeed::DelayedSip
        | AlpacaDataFeed::Otc => "v2",
        AlpacaDataFeed::Boats | AlpacaDataFeed::Overnight => "v1beta1",
    };
    let mut url = String::from_str(base);
    url.append("/");
    url.append(version);
    url.append("/");
    url.append(feed.as_str());
    url
}

/// Trading REST URL of an environment.
pub fn trading_http_url(environment: AlpacaEnvironment) -> (r: &'static str)
    ensures
        r@ == spec_trading_http_url(environment),
{
    match environment {
        AlpacaEnvironment::Live => ALPACA_LIVE_TRADING_HTTP_URL,
        AlpacaEnvironment::Paper => ALPACA_PAPER_TRADING_HTTP_URL,
    }
}

/// Trading stream URL of an environment.
pub fn trading_ws_url(environment: AlpacaEnvironment) -> (r: String)
    ensures
        r@ == spec_trading_ws_url(environment),
{
    let http = trading_http_url(environment);
    proof {
        reveal_strlit("https://api.alpaca.markets");
        reveal_strlit("https://paper-api.alpaca.markets");
    }
    let rest = http.substring_char(8, http.unicode_len());
    let mut url = String::from_str("wss://");
    url.append(rest);
    url.append("/stream");
    url
}

} // verus!
