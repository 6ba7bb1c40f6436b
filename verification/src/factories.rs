use vstd::prelude::*;
use vstd::string::*;

use crate::common::consts::ALPACA;
use crate::common::text::{blank, is_blank};
use crate::common::urls::{data_http_url, spec_data_ws_url, spec_trading_http_url, spec_trading_ws_url};
use crate::config::{
    spec_effective_historical_feed, AlpacaDataClientConfig, AlpacaExecutionClientConfig,
    ConfigError,
};

verus! {

/// Builds market-data clients for the live node.
#[derive(Clone, Copy, Debug, Default)]
pub struct AlpacaDataClientFactory;

/// Builds execution clients for the live node.
#[derive(Clone, Copy, Debug, Default)]
pub struct AlpacaExecutionClientFactory;

/// What a market-data client is built from once its configuration is accepted.
#[derive(Clone, Debug)]
pub struct DataClientSetup {
    pub data_http_url: String,
    pub trading_http_url: String,
    pub data_ws_url: String,
    pub proxy_url: Option<String>,
    pub http_timeout_secs: u64,
    pub http_max_retries: u32,
}

/// What an execution client is built from once its configuration is accepted.
#[derive(Clone, Debug)]
pub struct ExecutionClientSetup {
    pub data_http_url: String,
    pub trading_http_url: String,
    pub trading_ws_url: String,
    pub proxy_url: Option<String>,
    pub http_timeout_secs: u64,
    pub http_max_retries: u32,
}

pub open spec fn opt_view(s: Option<String>) -> Option<Seq<char>> {
    match s {
        Some(v) => Some(v@),
        None => None,
    }
}

/// A configured credential value counts only where it is not blank.
pub open spec fn spec_explicit_value(value: Option<String>) -> Option<Seq<char>> {
    match value {
        Some(v) => if is_blank(v@) {
            None
        } else {
            Some(v@)
        },
        None => None,
    }
}

/// The configured key or secret, where one is set and not blank; the environment is the
/// fallback for the rest.
pub fn explicit_value(value: &Option<String>) -> (r: Option<String>)
    ensures
        opt_view(r) == spec_explicit_value(*value),
{
    match value {
        Some(v) => {
            if blank(v.as_str()) {
                None
            } else {
                Some(v.clone())
            }
        },
        None => None,
    }
}

impl AlpacaDataClientFactory {
    pub fn name(&self) -> (r: &'static str)
        ensures
            r@ == "ALPACA"@,
    {
        proof {
            reveal_strlit("ALPACA");
        }
        ALPACA
    }

    pub fn config_type(&self) -> (r: &'static str)
        ensures
            r@ == "AlpacaDataClientConfig"@,
    {
        "AlpacaDataClientConfig"
    }

    /// Checks the configuration and resolves what the client is built from.
    pub fn setup(&self, config: &AlpacaDataClientConfig) -> (r: Result<DataClientSetup, ConfigError>)
        ensures
            r is Ok <==> config.validate_ok(),
            r matches Ok(s) ==> ({
                &&& s.data_http_url@ == match config.base_url_data_http {
                    Some(u) => u@,
                    None => "https://data.alpaca.markets"@,
                }
                &&& s.trading_http_url@ == match config.base_url_trading_http {
                    Some(u) => u@,
                    None => spec_trading_http_url(config.trading_environment),
                }
                &&& s.data_ws_url@ == match config.base_url_data_ws {
                    Some(u) => u@,
                    None => spec_data_ws_url(config.data_environment, config.feed),
                }
                &&& opt_view(s.proxy_url) == opt_view(config.proxy_url)
                &&& s.http_timeout_secs == config.http_timeout_secs
                &&& s.http_max_retries == config.http_max_retries
            }),
    {
        match config.validate() {
            Ok(()) => {},
            Err(e) => {
                return Err(e);
            },
        }
        Ok(
            DataClientSetup {
                data_http_url: config.data_http_url(),
                trading_http_url: config.trading_http_url(),
                data_ws_url: config.data_ws_url(),
                proxy_url: config.proxy_url.clone(),
                http_timeout_secs: config.http_timeout_secs,
                http_max_retries: config.http_max_retries,
            },
        )
    }
}

impl AlpacaExecutionClientFactory {
    pub fn name(&self) -> (r: &'static str)
        ensures
            r@ == "ALPACA"@,
    {
        proof {
            reveal_strlit("ALPACA");
        }
        ALPACA
    }

    pub fn config_type(&self) -> (r: &'static str)
        ensures
            r@ == "AlpacaExecutionClientConfig"@,
    {
        "AlpacaExecutionClientConfig"
    }

    /// Checks the configuration and resolves what the client is built from; market data is
    /// always read from the default data endpoint.
    pub fn setup(&self, config: &AlpacaExecutionClientConfig) -> (r: Result<
        ExecutionClientSetup,
        ConfigError,
    >)
        ensures
            r is Ok <==> ((config.account_type is Cash || config.account_type is Margin)
                && config.http_timeout_secs > 0),
            r matches Ok(s) ==> ({
                &&& s.data_http_url@ == "https://data.alpaca.markets"@
                &&& s.trading_http_url@ == match config.base_url_trading_http {
                    Some(u) => u@,
                    None => spec_trading_http_url(config.environment),
                }
                &&& s.trading_ws_url@ == match config.base_url_trading_ws {
                    Some(u) => u@,
                    None => spec_trading_ws_url(config.environment),
                }
                &&& opt_view(s.proxy_url) == opt_view(config.proxy_url)
                &&& s.http_timeout_secs == config.http_timeout_secs
                &&& s.http_max_retries == config.http_max_retries
            }),
    {
        match config.validate() {
            Ok(()) => {},
            Err(e) => {
                return Err(e);
            },
        }
        Ok(
            ExecutionClientSetup {
                data_http_url: String::from_str(data_http_url()),
                trading_http_url: config.trading_http_url(),
                trading_ws_url: config.trading_ws_url(),
                proxy_url: config.proxy_url.clone(),
                http_timeout_secs: config.http_timeout_secs,
                http_max_retries: config.http_max_retries,
            },
        )
    }
}

} // verus!
