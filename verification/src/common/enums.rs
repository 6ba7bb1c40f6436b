use vstd::prelude::*;

use crate::common::text::str_eq;

verus! {

/// Trading environment; paper trading is the default and live trading must be chosen explicitly.
#[derive(Copy, Clone, Debug, PartialEq, Eq, Hash, Structural)]
pub enum AlpacaEnvironment {
    Live,
    Paper,
}

/// Market-data environment.
#[derive(Copy, Clone, Debug, PartialEq, Eq, Hash, Structural)]
pub enum AlpacaDataEnvironment {
    Live,
    Sandbox,
}

/// Market-data feed.
#[derive(Copy, Clone, Debug, PartialEq, Eq, Hash, Structural)]
pub enum AlpacaDataFeed {
    Iex,
    Sip,
    DelayedSip,
    Boats,
    Overnight,
    Otc,
}

/// Corporate-action adjustment applied to historical stock bars.
#[derive(Copy, Clone, Debug, PartialEq, Eq, Hash, Structural)]
pub enum AlpacaBarAdjustment {
    Raw,
    Split,
    Dividend,
    All,
}

pub open spec fn environment_name(e: AlpacaEnvironment) -> Seq<char> {
    match e {
        AlpacaEnvironment::Live => "live"@,
        AlpacaEnvironment::Paper => "paper"@,
    }
}

pub open spec fn data_environment_name(e: AlpacaDataEnvironment) -> Seq<char> {
    match e {
        AlpacaDataEnvironment::Live => "live"@,
        AlpacaDataEnvironment::Sandbox => "sandbox"@,
    }
}

pub open spec fn feed_name(f: AlpacaDataFeed) -> Seq<char> {
    match f {
        AlpacaDataFeed::Iex => "iex"@,
        AlpacaDataFeed::Sip => "sip"@,
        AlpacaDataFeed::DelayedSip => "delayed_sip"@,
        AlpacaDataFeed::Boats => "boats"@,
        AlpacaDataFeed::Overnight => "overnight"@,
        AlpacaDataFeed::Otc => "otc"@,
    }
}

pub open spec fn adjustment_name(a: AlpacaBarAdjustment) -> Seq<char> {
    match a {
        AlpacaBarAdjustment::Raw => "raw"@,
        AlpacaBarAdjustment::Split => "split"@,
        AlpacaBarAdjustment::Dividend => "dividend"@,
        AlpacaBarAdjustment::All => "all"@,
    }
}

impl Default for AlpacaEnvironment {
    fn default() -> (r: Self)
        ensures
            r == AlpacaEnvironment::Paper,
    {
        AlpacaEnvironment::Paper
    }
}

impl Default for AlpacaDataEnvironment {
    fn default() -> (r: Self)
        ensures
            r == AlpacaDataEnvironment::Live,
    {
        AlpacaDataEnvironment::Live
    }
}

impl Default for AlpacaDataFeed {
    fn default() -> (r: Self)
        ensures
            r == AlpacaDataFeed::Iex,
    {
        AlpacaDataFeed::Iex
    }
}

impl Default for AlpacaBarAdjustment {
    fn default() -> (r: Self)
        ensures
            r == AlpacaBarAdjustment::Raw,
    {
        AlpacaBarAdjustment::Raw
    }
}

impl AlpacaEnvironment {
    /// Lower-case wire and display name.
    pub fn as_str(self) -> (r: &'static str)
        ensures
            r@ == environment_name(self),
    {
        match self {
            AlpacaEnvironment::Live => "live",
            AlpacaEnvironment::Paper => "paper",
        }
    }
}

impl AlpacaDataEnvironment {
    /// Lower-case wire and display name.
    pub fn as_str(self) -> (r: &'static str)
        ensures
            r@ == data_environment_name(self),
    {
        match self {
            AlpacaDataEnvironment::Live => "live",
            AlpacaDataEnvironment::Sandbox => "sandbox",
        }
    }
}

impl AlpacaDataFeed {
    /// Every feed except OTC can be streamed live.
    pub fn supports_live_streaming(self) -> (r: bool)
        ensures
            r == !(self is Otc),
    {
        !matches!(self, AlpacaDataFeed::Otc)
    }

    /// Historical ranges are served for IEX, SIP, BOATS and OTC only.
    pub fn supports_historical_ranges(self) -> (r: bool)
        ensures
            r == (self is Iex || self is Sip || self is Boats || self is Otc),
    {
        matches!(
            self,
            AlpacaDataFeed::Iex | AlpacaDataFeed::Sip | AlpacaDataFeed::Boats | AlpacaDataFeed::Otc
        )
    }

    /// Lower-case wire and display name.
    pub fn as_str(self) -> (r: &'static str)
        ensures
            r@ == feed_name(self),
    {
        match self {
            AlpacaDataFeed::Iex => "iex",
            AlpacaDataFeed::Sip => "sip",
            AlpacaDataFeed::DelayedSip => "delayed_sip",
            AlpacaDataFeed::Boats => "boats",
            AlpacaDataFeed::Overnight => "overnight",
            AlpacaDataFeed::Otc => "otc",
        }
    }

    /// Parses a wire name; the names are exactly those of `as_str`.
    pub fn parse(value: &str) -> (r: Option<AlpacaDataFeed>)
        ensures
            r matches Some(f) ==> feed_name(f) == value@,
            r is None ==> forall|f: AlpacaDataFeed| feed_name(f) != value@,
    {
        if str_eq(value, "iex") {
            Some(AlpacaDataFeed::Iex)
        } else if str_eq(value, "sip") {
            Some(AlpacaDataFeed::Sip)
        } else if str_eq(value, "delayed_sip") {
            Some(AlpacaDataFeed::DelayedSip)
        } else if str_eq(value, "boats") {
            Some(AlpacaDataFeed::Boats)
        } else if str_eq(value, "overnight") {
            Some(AlpacaDataFeed::Overnight)
        } else if str_eq(value, "otc") {
            Some(AlpacaDataFeed::Otc)
        } else {
            None
        }
    }
}

impl AlpacaBarAdjustment {
    /// Lower-case wire and display name.
    pub fn as_str(self) -> (r: &'static str)
        ensures
            r@ == adjustment_name(self),
    {
        match self {
            AlpacaBarAdjustment::Raw => "raw",
            AlpacaBarAdjustment::Split => "split",
            AlpacaBarAdjustment::Dividend => "dividend",
            AlpacaBarAdjustment::All => "all",
        }
    }

    /// Parses a wire name; the names are exactly those of `as_str`.
    pub fn parse(value: &str) -> (r: Option<AlpacaBarAdjustment>)
        ensures
            r matches Some(a) ==> adjustment_name(a) == value@,
            r is None ==> forall|a: AlpacaBarAdjustment| adjustment_name(a) != value@,
    {
        if str_eq(value, "raw") {
            Some(AlpacaBarAdjustment::Raw)
        } else if str_eq(value, "split") {
            Some(AlpacaBarAdjustment::Split)
        } else if str_eq(value, "dividend") {
            Some(AlpacaBarAdjustment::Dividend)
        } else if str_eq(value, "all") {
            Some(AlpacaBarAdjustment::All)
        } else {
            None
        }
    }
}

} // verus!
