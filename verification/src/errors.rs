use vstd::prelude::*;

verus! {

/// The failure kinds that the library reports instead of crashing or
/// terminating the process: the caller decides what to do with them.
#[derive(Clone, Copy, Debug, PartialEq, Eq, Structural)]
pub enum WeatherError {
    /// The location string does not hold two comma-separated parts.
    InvalidLocation,
    /// The timezone service's response carries no `timezoneId` string field.
    MissingTimezone,
    /// A service response is not JSON, or does not match the expected shape.
    MalformedResponse,
}

impl WeatherError {
    /// A one-line diagnostic for this failure.
    pub fn message(&self) -> (r: &'static str)
        ensures
            *self == WeatherError::InvalidLocation ==> r@ == "invalid location format"@,
            *self == WeatherError::MissingTimezone ==> r@ == "Failed to fetch timezone data"@,
            *self == WeatherError::MalformedResponse ==> r@ == "malformed service response"@,
    {
        match self {
            WeatherError::InvalidLocation => "invalid location format",
            WeatherError::MissingTimezone => "Failed to fetch timezone data",
            WeatherError::MalformedResponse => "malformed service response",
        }
    }
}

} // verus!
