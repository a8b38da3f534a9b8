//! A daily min/max temperature report for a "latitude,longitude" query.
//!
//! The library holds everything that decides or computes: splitting the
//! location argument, building the two service URLs, reading the
//! timezone and forecast responses, converting Celsius readings to
//! Fahrenheit in tenths of a degree, and laying out the report line by
//! line. The network calls and the process exit live outside it.

pub mod errors;
pub mod forecast;
pub mod json;
pub mod location;
pub mod numbers;
pub mod report;
pub mod temperature;
pub mod text;
