use vstd::prelude::*;

verus! {

/// The caller's public address, as the echo service reported it.
#[derive(Debug)]
pub struct PublicAddress {
    pub ip: String,
}

/// Approximate place of the caller, resolved from the public address.
/// Latitude and longitude are kept as the decimal text of the wire numbers:
/// they are only ever echoed into the forecast request, unchanged.
#[derive(Debug)]
pub struct Location {
    pub latitude: String,
    pub longitude: String,
    pub city: String,
    pub country: String,
}

/// The unit labels that accompany the current conditions.
#[derive(Debug)]
pub struct UnitLabels {
    pub temperature: String,
    pub humidity: String,
    pub precipitation: String,
    pub rain: String,
    pub showers: String,
    pub snowfall: String,
}

/// The current conditions. Each measurement is kept as the decimal text of
/// the wire number, since it is only ever echoed into the report. The
/// day/night indicator is additionally kept as its integer value, on which
/// the "Day"/"Night" label is decided.
#[derive(Debug)]
pub struct CurrentConditions {
    pub time: String,
    pub temperature: String,
    pub humidity: String,
    pub apparent_temperature: String,
    pub is_day: i64,
    pub is_day_text: String,
    pub precipitation: String,
    pub rain: String,
    pub showers: String,
    pub snowfall: String,
}

/// The weather service's snapshot: current values and their unit labels.
#[derive(Debug)]
pub struct WeatherReport {
    pub units: UnitLabels,
    pub current: CurrentConditions,
}

} // verus!
