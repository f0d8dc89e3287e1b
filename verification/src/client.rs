//! What is asked of the weather provider, and what is taken from its
//! answer.

use vstd::prelude::*;
use crate::report::WeatherData;

verus! {

/// Why a fetch yielded no report.
#[derive(Debug, Clone, Copy, PartialEq, Eq, Structural)]
pub enum FetchError {
    /// The network call itself failed.
    Transport,
    /// The body could not be read as a list of reports.
    Decode,
    /// The provider answered with an empty list.
    EmptyResult,
}

/// The address of the provider's current-conditions endpoint for a
/// location, asking for detailed fields. Both values are embedded as they
/// are.
pub open spec fn request_url(api_key: Seq<char>, location_key: Seq<char>) -> Seq<char> {
    "http://dataservice.accuweather.com/currentconditions/v1/"@ + location_key + "?apikey="@
        + api_key + "&details=true"@
}

/// What a decoded answer yields: its first report, or `EmptyResult` where
/// it holds none.
pub open spec fn first_of(reports: Seq<WeatherData>) -> Result<WeatherData, FetchError> {
    if reports.len() == 0 {
        Err(FetchError::EmptyResult)
    } else {
        Ok(reports[0])
    }
}

/// The address to fetch the current conditions from.
pub fn weather_url(api_key: &str, location_key: &str) -> (url: String)
    ensures
        url@ == request_url(api_key@, location_key@),
{
    let mut url = String::from_str("http://dataservice.accuweather.com/currentconditions/v1/");
    url.append(location_key);
    url.append("?apikey=");
    url.append(api_key);
    url.append("&details=true");
    url
}

/// The report that a decoded answer stands for. Only the first element
/// counts; an empty answer is a failed fetch.
pub fn first_report(reports: Vec<WeatherData>) -> (outcome: Result<WeatherData, FetchError>)
    ensures
        outcome == first_of(reports@),
{
    let mut reports = reports;
    if reports.len() == 0 {
        Err(FetchError::EmptyResult)
    } else {
        Ok(reports.remove(0))
    }
}

} // verus!
