use vstd::prelude::*;

use crate::bridge::json_of;
use crate::bridge::parse_document;
use crate::errors::PipelineError;
use crate::json::Json;
use crate::json::doc_field;
use crate::json::int_field;
use crate::json::num_field;
use crate::json::spec_field;
use crate::json::spec_int_field;
use crate::json::spec_num_field;
use crate::json::spec_text_field;
use crate::json::text_field;
use crate::records::CurrentConditions;
use crate::records::Location;
use crate::records::PublicAddress;
use crate::records::UnitLabels;
use crate::records::WeatherReport;

verus! {

/// The address in an IP-echo document: the string field `ip`.
pub open spec fn ip_of_doc(doc: Json) -> Option<Seq<char>> {
    spec_text_field(doc, "ip"@)
}

/// The address a whole IP-echo body denotes, if it is valid JSON carrying one.
pub open spec fn ip_of_body(s: Seq<char>) -> Option<Seq<char>> {
    match json_of(s) {
        Some(doc) => ip_of_doc(doc),
        None => None,
    }
}

/// A geolocation document decodes when every required field is present with
/// the required type: numeric `lat` and `lon`, string `city` and `country`.
pub open spec fn location_decodes(doc: Json) -> bool {
    &&& spec_num_field(doc, "lat"@) is Some
    &&& spec_num_field(doc, "lon"@) is Some
    &&& spec_text_field(doc, "city"@) is Some
    &&& spec_text_field(doc, "country"@) is Some
}

/// `loc` carries exactly the four required fields of `doc`, unchanged.
pub open spec fn location_matches(doc: Json, loc: Location) -> bool {
    &&& spec_num_field(doc, "lat"@) == Some(loc.latitude@)
    &&& spec_num_field(doc, "lon"@) == Some(loc.longitude@)
    &&& spec_text_field(doc, "city"@) == Some(loc.city@)
    &&& spec_text_field(doc, "country"@) == Some(loc.country@)
}

/// The unit-label group decodes when each of its six labels is a string.
pub open spec fn units_decode(j: Json) -> bool {
    &&& spec_text_field(j, "temperature_2m"@) is Some
    &&& spec_text_field(j, "relative_humidity_2m"@) is Some
    &&& spec_text_field(j, "precipitation"@) is Some
    &&& spec_text_field(j, "rain"@) is Some
    &&& spec_text_field(j, "showers"@) is Some
    &&& spec_text_field(j, "snowfall"@) is Some
}

/// `u` carries exactly the six unit labels of the group `j`.
pub open spec fn units_match(j: Json, u: UnitLabels) -> bool {
    &&& spec_text_field(j, "temperature_2m"@) == Some(u.temperature@)
    &&& spec_text_field(j, "relative_humidity_2m"@) == Some(u.humidity@)
    &&& spec_text_field(j, "precipitation"@) == Some(u.precipitation@)
    &&& spec_text_field(j, "rain"@) == Some(u.rain@)
    &&& spec_text_field(j, "showers"@) == Some(u.showers@)
    &&& spec_text_field(j, "snowfall"@) == Some(u.snowfall@)
}

/// The current-conditions group decodes when the timestamp is a string, the
/// day/night indicator is an integer-valued number, and every measurement is
/// a number.
pub open spec fn current_decode(j: Json) -> bool {
    &&& spec_text_field(j, "time"@) is Some
    &&& spec_num_field(j, "temperature_2m"@) is Some
    &&& spec_num_field(j, "relative_humidity_2m"@) is Some
    &&& spec_num_field(j, "apparent_temperature"@) is Some
    &&& spec_int_field(j, "is_day"@) is Some
    &&& spec_num_field(j, "precipitation"@) is Some
    &&& spec_num_field(j, "rain"@) is Some
    &&& spec_num_field(j, "showers"@) is Some
    &&& spec_num_field(j, "snowfall"@) is Some
}

/// `c` carries exactly the current-conditions fields of the group `j`.
pub open spec fn current_matches(j: Json, c: CurrentConditions) -> bool {
    &&& spec_text_field(j, "time"@) == Some(c.time@)
    &&& spec_num_field(j, "temperature_2m"@) == Some(c.temperature@)
    &&& spec_num_field(j, "relative_humidity_2m"@) == Some(c.humidity@)
    &&& spec_num_field(j, "apparent_temperature"@) == Some(c.apparent_temperature@)
    &&& spec_int_field(j, "is_day"@) == Some(c.is_day)
    &&& spec_num_field(j, "is_day"@) == Some(c.is_day_text@)
    &&& spec_num_field(j, "precipitation"@) == Some(c.precipitation@)
    &&& spec_num_field(j, "rain"@) == Some(c.rain@)
    &&& spec_num_field(j, "showers"@) == Some(c.showers@)
    &&& spec_num_field(j, "snowfall"@) == Some(c.snowfall@)
}

/// A weather document decodes when both sibling groups are present and each
/// decodes.
pub open spec fn weather_decodes(doc: Json) -> bool {
    &&& spec_field(doc, "current_units"@) matches Some(u) && units_decode(u)
    &&& spec_field(doc, "current"@) matches Some(c) && current_decode(c)
}

/// `rep` carries exactly the two groups of `doc`.
pub open spec fn weather_matches(doc: Json, rep: WeatherReport) -> bool {
    &&& spec_field(doc, "current_units"@) matches Some(u) && units_match(u, rep.units)
    &&& spec_field(doc, "current"@) matches Some(c) && current_matches(c, rep.current)
}

/// A whole geolocation body strict-decodes: valid JSON with every required
/// field.
pub open spec fn location_body_decodes(s: Seq<char>) -> bool {
    json_of(s) matches Some(doc) && location_decodes(doc)
}

/// `loc` carries exactly the required fields of the document the body `s`
/// denotes.
pub open spec fn location_body_matches(s: Seq<char>, loc: Location) -> bool {
    json_of(s) matches Some(doc) && location_matches(doc, loc)
}

/// A whole weather body strict-decodes: valid JSON with both groups complete.
pub open spec fn weather_body_decodes(s: Seq<char>) -> bool {
    json_of(s) matches Some(doc) && weather_decodes(doc)
}

/// `rep` carries exactly the two groups of the document the body `s` denotes.
pub open spec fn weather_body_matches(s: Seq<char>, rep: WeatherReport) -> bool {
    json_of(s) matches Some(doc) && weather_matches(doc, rep)
}

/// Reads the address out of a parsed IP-echo document.
pub fn extract_ip(doc: &Json) -> (r: Result<PublicAddress, PipelineError>)
    ensures
        match r {
            Ok(a) => ip_of_doc(*doc) == Some(a.ip@),
            Err(e) => e == PipelineError::ParseError && ip_of_doc(*doc) is None,
        },
{
    let key = "ip".to_owned();
    match text_field(doc, &key) {
        Some(ip) => Ok(PublicAddress { ip }),
        None => Err(PipelineError::ParseError),
    }
}

/// Strict-decodes a parsed geolocation document: every required field must be
/// present with the required type; unknown fields are ignored.
pub fn extract_location(doc: &Json) -> (r: Result<Location, PipelineError>)
    ensures
        match r {
            Ok(loc) => location_matches(*doc, loc),
            Err(e) => e == PipelineError::ParseError && !location_decodes(*doc),
        },
{
    let latitude = match num_field(doc, &"lat".to_owned()) {
        Some(s) => s,
        None => { return Err(PipelineError::ParseError) },
    };
    let longitude = match num_field(doc, &"lon".to_owned()) {
        Some(s) => s,
        None => { return Err(PipelineError::ParseError) },
    };
    let city = match text_field(doc, &"city".to_owned()) {
        Some(s) => s,
        None => { return Err(PipelineError::ParseError) },
    };
    let country = match text_field(doc, &"country".to_owned()) {
        Some(s) => s,
        None => { return Err(PipelineError::ParseError) },
    };
    Ok(Location { latitude, longitude, city, country })
}

/// Strict-decodes the unit-label group.
fn extract_units(j: &Json) -> (r: Result<UnitLabels, PipelineError>)
    ensures
        match r {
            Ok(u) => units_match(*j, u),
            Err(e) => e == PipelineError::ParseError && !units_decode(*j),
        },
{
    let temperature = match text_field(j, &"temperature_2m".to_owned()) {
        Some(s) => s,
        None => { return Err(PipelineError::ParseError) },
    };
    let humidity = match text_field(j, &"relative_humidity_2m".to_owned()) {
        Some(s) => s,
        None => { return Err(PipelineError::ParseError) },
    };
    let precipitation = match text_field(j, &"precipitation".to_owned()) {
        Some(s) => s,
        None => { return Err(PipelineError::ParseError) },
    };
    let rain = match text_field(j, &"rain".to_owned()) {
        Some(s) => s,
        None => { return Err(PipelineError::ParseError) },
    };
    let showers = match text_field(j, &"showers".to_owned()) {
        Some(s) => s,
        None => { return Err(PipelineError::ParseError) },
    };
    let snowfall = match text_field(j, &"snowfall".to_owned()) {
        Some(s) => s,
        None => { return Err(PipelineError::ParseError) },
    };
    Ok(UnitLabels { temperature, humidity, precipitation, rain, showers, snowfall })
}

/// Strict-decodes the current-conditions group.
fn extract_current(j: &Json) -> (r: Result<CurrentConditions, PipelineError>)
    ensures
        match r {
            Ok(c) => current_matches(*j, c),
            Err(e) => e == PipelineError::ParseError && !current_decode(*j),
        },
{
    let time = match text_field(j, &"time".to_owned()) {
        Some(s) => s,
        None => { return Err(PipelineError::ParseError) },
    };
    let temperature = match num_field(j, &"temperature_2m".to_owned()) {
        Some(s) => s,
        None => { return Err(PipelineError::ParseError) },
    };
    let humidity = match num_field(j, &"relative_humidity_2m".to_owned()) {
        Some(s) => s,
        None => { return Err(PipelineError::ParseError) },
    };
    let apparent_temperature = match num_field(j, &"apparent_temperature".to_owned()) {
        Some(s) => s,
        None => { return Err(PipelineError::ParseError) },
    };
    let (is_day_text, is_day) = match int_field(j, &"is_day".to_owned()) {
        Some(p) => p,
        None => { return Err(PipelineError::ParseError) },
    };
    let precipitation = match num_field(j, &"precipitation".to_owned()) {
        Some(s) => s,
        None => { return Err(PipelineError::ParseError) },
    };
    let rain = match num_field(j, &"rain".to_owned()) {
        Some(s) => s,
        None => { return Err(PipelineError::ParseError) },
    };
    let showers = match num_field(j, &"showers".to_owned()) {
        Some(s) => s,
        None => { return Err(PipelineError::ParseError) },
    };
    let snowfall = match num_field(j, &"snowfall".to_owned()) {
        Some(s) => s,
        None => { return Err(PipelineError::ParseError) },
    };
    Ok(
        CurrentConditions {
            time,
            temperature,
            humidity,
            apparent_temperature,
            is_day,
            is_day_text,
            precipitation,
            rain,
            showers,
            snowfall,
        },
    )
}

/// Strict-decodes a parsed weather document into its two sibling groups.
pub fn extract_weather(doc: &Json) -> (r: Result<WeatherReport, PipelineError>)
    ensures
        match r {
            Ok(rep) => weather_matches(*doc, rep),
            Err(e) => e == PipelineError::ParseError && !weather_decodes(*doc),
        },
{
    let units_json = match doc_field(doc, &"current_units".to_owned()) {
        Some(j) => j,
        None => { return Err(PipelineError::ParseError) },
    };
    let current_json = match doc_field(doc, &"current".to_owned()) {
        Some(j) => j,
        None => { return Err(PipelineError::ParseError) },
    };
    let units = match extract_units(units_json) {
        Ok(u) => u,
        Err(e) => { return Err(e) },
    };
    let current = match extract_current(current_json) {
        Ok(c) => c,
        Err(e) => { return Err(e) },
    };
    Ok(WeatherReport { units, current })
}

/// Parses and strict-decodes an IP-echo body: the address is returned exactly
/// as the body carried it, and a body that is not valid JSON, or lacks a
/// string `ip` field, fails with a parse error.
pub fn parse_ip_body(body: &str) -> (r: Result<PublicAddress, PipelineError>)
    ensures
        match r {
            Ok(a) => ip_of_body(body@) == Some(a.ip@),
            Err(e) => e == PipelineError::ParseError && ip_of_body(body@) is None,
        },
{
    match parse_document(body) {
        Some(doc) => extract_ip(&doc),
        None => Err(PipelineError::ParseError),
    }
}

/// Parses and strict-decodes a geolocation body: the four required fields are
/// returned exactly as the body carried them; a missing or mistyped field, or
/// a body that is not valid JSON, fails with a parse error.
pub fn parse_location_body(body: &str) -> (r: Result<Location, PipelineError>)
    ensures
        match r {
            Ok(loc) => location_body_matches(body@, loc),
            Err(e) => e == PipelineError::ParseError && !location_body_decodes(body@),
        },
{
    match parse_document(body) {
        Some(doc) => extract_location(&doc),
        None => Err(PipelineError::ParseError),
    }
}

/// Parses and strict-decodes a weather body: both sibling groups are returned
/// exactly as the body carried them; a missing or mistyped field, or a body
/// that is not valid JSON, fails with a parse error.
pub fn parse_weather_body(body: &str) -> (r: Result<WeatherReport, PipelineError>)
    ensures
        match r {
            Ok(rep) => weather_body_matches(body@, rep),
            Err(e) => e == PipelineError::ParseError && !weather_body_decodes(body@),
        },
{
    match parse_document(body) {
        Some(doc) => extract_weather(&doc),
        None => Err(PipelineError::ParseError),
    }
}

} // verus!
