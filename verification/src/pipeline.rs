use vstd::prelude::*;

use crate::errors::PipelineError;
use crate::extract::ip_of_body;
use crate::extract::location_body_decodes;
use crate::extract::location_body_matches;
use crate::extract::parse_ip_body;
use crate::extract::parse_location_body;
use crate::extract::parse_weather_body;
use crate::extract::weather_body_decodes;
use crate::extract::weather_body_matches;
use crate::records::Location;
use crate::records::PublicAddress;
use crate::records::WeatherReport;
use crate::report::Flags;
use crate::report::join2;
use crate::report::join5;
use crate::report::output_lines;
use crate::report::render_output;

verus! {

/// The geolocation request: the address embedded as a path segment of the
/// fixed base.
pub open spec fn geo_url_of(ip: Seq<char>) -> Seq<char> {
    "http://ip-api.com/json/"@ + ip
}

/// The forecast request: coordinates as query parameters of the fixed base,
/// asking for the fixed set of current-condition fields.
pub open spec fn weather_url_of(lat: Seq<char>, lon: Seq<char>) -> Seq<char> {
    "https://api.open-meteo.com/v1/forecast?latitude="@ + lat + "&longitude="@ + lon
        + "&current=temperature_2m,relative_humidity_2m,apparent_temperature,is_day,precipitation,rain,showers,snowfall"@
}

/// Where a run stands: the three fetch-and-decode steps in their strict
/// order, then completion. Each step's record is carried forward unchanged.
#[derive(Debug)]
pub enum Stage {
    ResolveIp,
    ResolveLocation { address: PublicAddress },
    FetchWeather { address: PublicAddress, location: Location },
    Complete { address: PublicAddress, location: Location, report: WeatherReport },
}

impl Stage {
    /// The run still owes a network round trip.
    pub open spec fn awaiting(self) -> bool {
        !(self is Complete)
    }

    /// The URL the pending step must fetch, if one is pending.
    pub open spec fn spec_request_url(self) -> Option<Seq<char>> {
        match self {
            Stage::ResolveIp => Some("https://api.ipify.org?format=json"@),
            Stage::ResolveLocation { address } => Some(geo_url_of(address.ip@)),
            Stage::FetchWeather { address, location } => Some(
                weather_url_of(location.latitude@, location.longitude@),
            ),
            Stage::Complete { .. } => None,
        }
    }

    /// Builds the pending step's request URL; `None` once the run is complete.
    pub fn request_url(&self) -> (r: Option<String>)
        ensures
            match r {
                Some(u) => self.spec_request_url() == Some(u@) && self.awaiting(),
                None => self.spec_request_url() is None && !self.awaiting(),
            },
    {
        match self {
            Stage::ResolveIp => Some("https://api.ipify.org?format=json".to_owned()),
            Stage::ResolveLocation { address } => Some(
                join2("http://ip-api.com/json/", address.ip.as_str()),
            ),
            Stage::FetchWeather { address: _, location } => Some(
                join5(
                    "https://api.open-meteo.com/v1/forecast?latitude=",
                    location.latitude.as_str(),
                    "&longitude=",
                    location.longitude.as_str(),
                    "&current=temperature_2m,relative_humidity_2m,apparent_temperature,is_day,precipitation,rain,showers,snowfall",
                ),
            ),
            Stage::Complete { .. } => None,
        }
    }

    /// Consumes the pending step's response body: decodes it, carries the
    /// records forward, and moves to the next step. A body that does not
    /// strict-decode fails the whole run with a parse error.
    pub fn advance(self, body: &str) -> (r: Result<Stage, PipelineError>)
        requires
            self.awaiting(),
        ensures
            match self {
                Stage::ResolveIp => (match r {
                    Ok(next) => next matches Stage::ResolveLocation { address } && ip_of_body(
                        body@,
                    ) == Some(address.ip@),
                    Err(e) => e == PipelineError::ParseError && ip_of_body(body@) is None,
                }),
                Stage::ResolveLocation { address } => (match r {
                    Ok(next) => next matches Stage::FetchWeather { address: a, location } && a
                        == address && location_body_matches(body@, location),
                    Err(e) => e == PipelineError::ParseError && !location_body_decodes(body@),
                }),
                Stage::FetchWeather { address, location } => (match r {
                    Ok(next) => next matches Stage::Complete { address: a, location: l, report }
                        && a == address && l == location && weather_body_matches(body@, report),
                    Err(e) => e == PipelineError::ParseError && !weather_body_decodes(body@),
                }),
                Stage::Complete { .. } => false,
            },
    {
        match self {
            Stage::ResolveIp => match parse_ip_body(body) {
                Ok(address) => Ok(Stage::ResolveLocation { address }),
                Err(e) => Err(e),
            },
            Stage::ResolveLocation { address } => match parse_location_body(body) {
                Ok(location) => Ok(Stage::FetchWeather { address, location }),
                Err(e) => Err(e),
            },
            Stage::FetchWeather { address, location } => match parse_weather_body(body) {
                Ok(report) => Ok(Stage::Complete { address, location, report }),
                Err(e) => Err(e),
            },
            // barred by the precondition: a complete run consumes no body
            Stage::Complete { .. } => Err(PipelineError::ParseError),
        }
    }

    /// Renders the program output, available only once the run is complete:
    /// an unfinished or aborted run yields no lines at all.
    pub fn finish(&self, flags: &Flags) -> (r: Option<Vec<String>>)
        ensures
            match r {
                Some(lines) => *self matches Stage::Complete { address, location, report }
                    && lines.deep_view() == output_lines(*flags, address, location, report),
                None => self.awaiting(),
            },
    {
        match self {
            Stage::Complete { address, location, report } => Some(
                render_output(flags, address, location, report),
            ),
            _ => None,
        }
    }
}

} // verus!
