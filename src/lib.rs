//! Chance of rain at the caller's location, found through three chained
//! JSON web services: an IP echo, an IP geolocation lookup and a weather
//! forecast lookup keyed by coordinates.
//!
//! The library holds everything but the network: it decodes the few fields
//! it needs from each parsed response, builds the next request, drives the
//! lookups as a step machine and formats the report.
pub mod decode;
pub mod json;
pub mod laws;
pub mod pipeline;
pub mod report;

pub use decode::{
    decode_period, forecast_document_url, rain_chance_of, resolve_forecast, resolve_location,
    resolve_own_ip, Coordinates, FetchError, Field, ForecastPeriod,
};
pub use json::{Json, JsonNumber};
pub use pipeline::{
    ip_echo_url, location_url, points_url, Action, Lookup, PipelineError, Report, Stage,
};
pub use report::{decimal_text, ip_line, location_line, period_line, report_lines};
