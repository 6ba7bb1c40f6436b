use vstd::prelude::*;

verus! {

/// Venue and client identifier used for every Alpaca instrument.
pub const ALPACA: &'static str = "ALPACA";

pub const ALPACA_DATA_HTTP_URL: &'static str = "https://data.alpaca.markets";

pub const ALPACA_DATA_WS_URL: &'static str = "wss://stream.data.alpaca.markets";

pub const ALPACA_DATA_SANDBOX_WS_URL: &'static str = "wss://stream.data.sandbox.alpaca.markets";

pub const ALPACA_LIVE_TRADING_HTTP_URL: &'static str = "https://api.alpaca.markets";

pub const ALPACA_PAPER_TRADING_HTTP_URL: &'static str = "https://paper-api.alpaca.markets";

pub const ALPACA_API_KEY_HEADER: &'static str = "APCA-API-KEY-ID";

pub const ALPACA_API_SECRET_HEADER: &'static str = "APCA-API-SECRET-KEY";

} // verus!
