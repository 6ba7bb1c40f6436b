use vstd::prelude::*;
use vstd::string::*;

use crate::common::text::str_eq;
use crate::data::{instrument_text, InstrumentKey};
use crate::http::query::AlpacaAssetsQuery;

verus! {

/// Why the instrument provider refuses to load.
#[derive(Clone, Debug)]
pub enum ProviderError {
    /// `load_ids` was given no instrument.
    NoInstrumentIds,
    /// An instrument of another venue was requested (carries the instrument id).
    WrongVenue(String),
    /// The venue answered with another instrument (carries the returned and requested ids).
    MismatchedInstrument { returned: String, requested: String },
}

/// The asset-master query of `load_all`: US equities, active ones unless the filters name a
/// status, with the exchange and attributes filters passed on.
pub fn assets_query<'a>(
    status: Option<&'a str>,
    exchange: Option<&'a str>,
    attributes: Option<&'a str>,
) -> (r: AlpacaAssetsQuery<'a>)
    ensures
        status is Some ==> r.status == status,
        status is None ==> (r.status matches Some(s) && s@ == "active"@),
        r.asset_class@ == "us_equity"@,
        r.exchange == exchange,
        r.attributes == attributes,
{
    let status = match status {
        Some(s) => Some(s),
        None => Some("active"),
    };
    AlpacaAssetsQuery { status, asset_class: "us_equity", exchange, attributes }
}

/// `load_ids` needs at least one instrument.
pub fn check_instrument_count(count: usize) -> (r: Result<(), ProviderError>)
    ensures
        r is Ok <==> count > 0,
        r matches Err(e) ==> e is NoInstrumentIds,
{
    if count == 0 {
        return Err(ProviderError::NoInstrumentIds);
    }
    Ok(())
}

/// Only ALPACA instruments are fetched.
pub fn check_requested_instrument(requested: &InstrumentKey) -> (r: Result<(), ProviderError>)
    ensures
        r is Ok <==> requested.venue@ == "ALPACA"@,
        r matches Err(e) ==> (e matches ProviderError::WrongVenue(t) && t@ == instrument_text(
            requested.symbol@,
            requested.venue@,
        )),
{
    if !str_eq(requested.venue.as_str(), "ALPACA") {
        return Err(ProviderError::WrongVenue(requested.text()));
    }
    Ok(())
}

/// The instrument parsed from the venue's answer must be the one requested.
pub fn check_returned_instrument(returned_id: &str, requested: &InstrumentKey) -> (r: Result<
    (),
    ProviderError,
>)
    ensures
        r is Ok <==> returned_id@ == instrument_text(requested.symbol@, requested.venue@),
        r matches Err(e) ==> (e matches ProviderError::MismatchedInstrument { returned, requested: q }
            && returned@ == returned_id@ && q@ == instrument_text(
            requested.symbol@,
            requested.venue@,
        )),
{
    let requested_id = requested.text();
    if !str_eq(returned_id, requested_id.as_str()) {
        return Err(
            ProviderError::MismatchedInstrument {
                returned: String::from_str(returned_id),
                requested: requested_id,
            },
        );
    }
    Ok(())
}

} // verus!
