//! Reports the current weather for the caller's location, inferred from the
//! caller's public IP address: three strictly sequential fetch-and-decode
//! steps (public address, geolocation, current conditions), then one
//! conditional dispatch between a full report and a single requested field.
//! The decoding, the request building, the dispatch and the rendering are
//! verified; the caller performs the network round trips and hands the
//! response bodies in as text.

pub mod bridge;
pub mod errors;
pub mod extract;
pub mod json;
pub mod pipeline;
pub mod records;
pub mod report;
