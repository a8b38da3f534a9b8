use vstd::prelude::*;
use crate::errors::WeatherError;
use crate::json::nested_string_member;
use crate::json::number_array_member;
use crate::json::number_member;
use crate::json::spec_nested_string_member;
use crate::json::spec_number_array_member;
use crate::json::spec_number_member;
use crate::json::spec_string_array_member;
use crate::json::spec_string_member;
use crate::json::string_array_member;
use crate::json::string_member;
use crate::numbers::parse_int;
use crate::numbers::parse_tenths;
use crate::numbers::spec_parse_int;
use crate::numbers::spec_parse_tenths;
use crate::temperature::tenths_in_range;

verus! {

/// The aligned per-day arrays of a forecast: one date and one maximum
/// and minimum temperature per day. Temperatures are Celsius readings
/// in tenths of a degree.
pub struct DailySeries {
    pub time: Vec<String>,
    pub temperature_2m_max: Vec<i64>,
    pub temperature_2m_min: Vec<i64>,
}

/// The unit labels the forecast service attaches to the two
/// temperature series.
pub struct DailyUnits {
    pub temperature_2m_max: String,
    pub temperature_2m_min: String,
}

/// A forecast response in the library's own terms: the per-day series,
/// the unit labels, and the scalar fields. Scalars that are only echoed
/// in the report keep their decimal text; the UTC offset is a number
/// the caller may reason about.
pub struct ForecastResult {
    pub daily: DailySeries,
    pub daily_units: DailyUnits,
    pub elevation: String,
    pub generationtime_ms: String,
    pub latitude: String,
    pub longitude: String,
    pub timezone: String,
    pub timezone_abbreviation: String,
    pub utc_offset_seconds: i64,
}

impl DailySeries {
    /// The three arrays are index-aligned, and every temperature is in
    /// the range the conversion arithmetic asks for.
    pub open spec fn wf(self) -> bool {
        &&& self.time.len() == self.temperature_2m_max.len()
        &&& self.time.len() == self.temperature_2m_min.len()
        &&& forall|i: int|
            0 <= i < self.temperature_2m_max.len() ==> tenths_in_range(
                #[trigger] self.temperature_2m_max[i] as int,
            )
        &&& forall|i: int|
            0 <= i < self.temperature_2m_min.len() ==> tenths_in_range(
                #[trigger] self.temperature_2m_min[i] as int,
            )
    }
}

impl ForecastResult {
    /// A forecast is well-formed when its daily series is and its UTC
    /// offset can be negated without overflow.
    pub open spec fn wf(self) -> bool {
        self.daily.wf() && self.utc_offset_seconds > i64::MIN
    }

    /// Checks `wf` at runtime, for callers outside the verified world
    /// that must test it before leaning on it.
    pub fn is_well_formed(&self) -> (r: bool)
        ensures
            r == self.wf(),
    {
        if self.daily.time.len() != self.daily.temperature_2m_max.len() {
            return false;
        }
        if self.daily.time.len() != self.daily.temperature_2m_min.len() {
            return false;
        }
        if self.utc_offset_seconds == i64::MIN {
            return false;
        }
        let mut i: usize = 0;
        while i < self.daily.time.len()
            invariant
                i <= self.daily.time.len(),
                self.daily.time.len() == self.daily.temperature_2m_max.len(),
                self.daily.time.len() == self.daily.temperature_2m_min.len(),
                forall|k: int|
                    0 <= k < i ==> tenths_in_range(#[trigger] self.daily.temperature_2m_max[k] as int),
                forall|k: int|
                    0 <= k < i ==> tenths_in_range(#[trigger] self.daily.temperature_2m_min[k] as int),
            decreases self.daily.time.len() - i,
        {
            let hi = self.daily.temperature_2m_max[i];
            if hi <= -10000000000000000 || hi >= 10000000000000000 {
                return false;
            }
            let lo = self.daily.temperature_2m_min[i];
            if lo <= -10000000000000000 || lo >= 10000000000000000 {
                return false;
            }
            i = i + 1;
        }
        true
    }
}

/// A two-layer read collapsed to what it found: nothing when the body
/// was not JSON or the member was not there as asked.
pub open spec fn read_of<T>(x: Option<Option<T>>) -> Option<T> {
    match x {
        Some(Some(v)) => Some(v),
        _ => None,
    }
}

/// Every temperature text reads as a fixed-point decimal.
pub open spec fn temps_readable(texts: Seq<Seq<char>>) -> bool {
    forall|i: int| 0 <= i < texts.len() ==> spec_parse_tenths(#[trigger] texts[i]) is Some
}

/// The body's array of dates.
pub open spec fn spec_read_times(body: Seq<char>) -> Option<Seq<Seq<char>>> {
    read_of(spec_string_array_member(body, "daily"@, "time"@))
}

/// The body's array of maximum-temperature texts.
pub open spec fn spec_read_maxs(body: Seq<char>) -> Option<Seq<Seq<char>>> {
    read_of(spec_number_array_member(body, "daily"@, "temperature_2m_max"@))
}

/// The body's array of minimum-temperature texts.
pub open spec fn spec_read_mins(body: Seq<char>) -> Option<Seq<Seq<char>>> {
    read_of(spec_number_array_member(body, "daily"@, "temperature_2m_min"@))
}

/// One of the body's two unit labels.
pub open spec fn spec_read_unit(body: Seq<char>, key: Seq<char>) -> Option<Seq<char>> {
    read_of(spec_nested_string_member(body, "daily_units"@, key))
}

/// One of the body's top-level number members, as text.
pub open spec fn spec_read_number(body: Seq<char>, key: Seq<char>) -> Option<Seq<char>> {
    read_of(spec_number_member(body, key))
}

/// One of the body's top-level string members.
pub open spec fn spec_read_string(body: Seq<char>, key: Seq<char>) -> Option<Seq<char>> {
    read_of(spec_string_member(body, key))
}

/// The forecast body carries the whole expected schema: every member
/// present and of the right kind, every temperature text a fixed-point
/// decimal, the UTC offset a plain integer, and the three daily arrays
/// of one length.
pub open spec fn spec_forecast_body_ok(body: Seq<char>) -> bool {
    &&& spec_read_times(body) is Some
    &&& spec_read_maxs(body) is Some
    &&& spec_read_mins(body) is Some
    &&& temps_readable(spec_read_maxs(body).unwrap())
    &&& temps_readable(spec_read_mins(body).unwrap())
    &&& spec_read_maxs(body).unwrap().len() == spec_read_times(body).unwrap().len()
    &&& spec_read_mins(body).unwrap().len() == spec_read_times(body).unwrap().len()
    &&& spec_read_unit(body, "temperature_2m_max"@) is Some
    &&& spec_read_unit(body, "temperature_2m_min"@) is Some
    &&& spec_read_number(body, "elevation"@) is Some
    &&& spec_read_number(body, "generationtime_ms"@) is Some
    &&& spec_read_number(body, "latitude"@) is Some
    &&& spec_read_number(body, "longitude"@) is Some
    &&& spec_read_string(body, "timezone"@) is Some
    &&& spec_read_string(body, "timezone_abbreviation"@) is Some
    &&& spec_read_number(body, "utc_offset_seconds"@) is Some
    &&& spec_parse_int(spec_read_number(body, "utc_offset_seconds"@).unwrap()) is Some
}

/// The parsed record mirrors the body: the dates equal the read array,
/// each temperature is the fixed-point reading of the corresponding
/// number text, the echoed scalars keep the read texts, and the UTC
/// offset is the integer reading of its text.
pub open spec fn spec_forecast_matches(body: Seq<char>, fr: ForecastResult) -> bool {
    &&& spec_read_times(body) == Some(fr.daily.time.deep_view())
    &&& spec_read_maxs(body) is Some
    &&& spec_read_mins(body) is Some
    &&& fr.daily.temperature_2m_max.len() == spec_read_maxs(body).unwrap().len()
    &&& fr.daily.temperature_2m_min.len() == spec_read_mins(body).unwrap().len()
    &&& forall|i: int|
        0 <= i < spec_read_maxs(body).unwrap().len() ==> spec_parse_tenths(
            #[trigger] spec_read_maxs(body).unwrap()[i],
        ) == Some(fr.daily.temperature_2m_max[i] as int)
    &&& forall|i: int|
        0 <= i < spec_read_mins(body).unwrap().len() ==> spec_parse_tenths(
            #[trigger] spec_read_mins(body).unwrap()[i],
        ) == Some(fr.daily.temperature_2m_min[i] as int)
    &&& spec_read_unit(body, "temperature_2m_max"@) == Some(fr.daily_units.temperature_2m_max@)
    &&& spec_read_unit(body, "temperature_2m_min"@) == Some(fr.daily_units.temperature_2m_min@)
    &&& spec_read_number(body, "elevation"@) == Some(fr.elevation@)
    &&& spec_read_number(body, "generationtime_ms"@) == Some(fr.generationtime_ms@)
    &&& spec_read_number(body, "latitude"@) == Some(fr.latitude@)
    &&& spec_read_number(body, "longitude"@) == Some(fr.longitude@)
    &&& spec_read_string(body, "timezone"@) == Some(fr.timezone@)
    &&& spec_read_string(body, "timezone_abbreviation"@) == Some(fr.timezone_abbreviation@)
    &&& spec_read_number(body, "utc_offset_seconds"@) is Some
    &&& spec_parse_int(spec_read_number(body, "utc_offset_seconds"@).unwrap()) == Some(
        fr.utc_offset_seconds as int,
    )
}

/// Every text read as a temperature in tenths of a degree, or nothing
/// when one is no fixed-point decimal.
fn temps_from_texts(texts: &Vec<String>) -> (r: Option<Vec<i64>>)
    ensures
        r is Some <==> temps_readable(texts.deep_view()),
        r matches Some(out) ==> out.len() == texts.len() && forall|i: int|
            0 <= i < out.len() ==> spec_parse_tenths(#[trigger] texts.deep_view()[i]) == Some(
                out[i] as int,
            ) && tenths_in_range(out[i] as int),
{
    let mut out: Vec<i64> = Vec::new();
    let mut i: usize = 0;
    while i < texts.len()
        invariant
            i <= texts.len(),
            out.len() == i,
            forall|k: int|
                0 <= k < i ==> spec_parse_tenths(#[trigger] texts.deep_view()[k]) == Some(
                    out[k] as int,
                ) && tenths_in_range(out[k] as int),
        decreases texts.len() - i,
    {
        match parse_tenths(texts[i].as_str()) {
            Some(t) => out.push(t),
            None => {
                proof {
                    assert(spec_parse_tenths(texts.deep_view()[i as int]) is None);
                }
                return None;
            },
        }
        i = i + 1;
    }
    Some(out)
}

/// Reads the timezone service's response and extracts the `timezoneId`
/// field. A body that is not JSON is malformed; a body without that
/// member, or with a non-string one, has no timezone to offer, and the
/// forecast must not be attempted.
pub fn extract_timezone_id(body: &str) -> (r: Result<String, WeatherError>)
    ensures
        spec_string_member(body@, "timezoneId"@) is None ==> r == Err::<
            String,
            WeatherError,
        >(WeatherError::MalformedResponse),
        spec_string_member(body@, "timezoneId"@) matches Some(None) ==> r == Err::<
            String,
            WeatherError,
        >(WeatherError::MissingTimezone),
        spec_string_member(body@, "timezoneId"@) matches Some(Some(id)) ==> r matches Ok(s) && s@
            == id,
{
    match string_member(body, "timezoneId") {
        None => Err(WeatherError::MalformedResponse),
        Some(None) => Err(WeatherError::MissingTimezone),
        Some(Some(id)) => Ok(id),
    }
}

/// Reads the forecast service's response into a `ForecastResult`: `Ok`
/// exactly when the body carries the expected schema, and then a
/// well-formed record mirroring the body; any miss is a schema
/// mismatch.
pub fn parse_forecast(body: &str) -> (r: Result<ForecastResult, WeatherError>)
    ensures
        r is Ok <==> spec_forecast_body_ok(body@),
        r matches Ok(fr) ==> fr.wf() && spec_forecast_matches(body@, fr),
        r matches Err(e) ==> e == WeatherError::MalformedResponse,
{
    let time = match string_array_member(body, "daily", "time") {
        Some(Some(t)) => t,
        _ => {
            return Err(WeatherError::MalformedResponse);
        },
    };
    let max_texts = match number_array_member(body, "daily", "temperature_2m_max") {
        Some(Some(t)) => t,
        _ => {
            return Err(WeatherError::MalformedResponse);
        },
    };
    let min_texts = match number_array_member(body, "daily", "temperature_2m_min") {
        Some(Some(t)) => t,
        _ => {
            return Err(WeatherError::MalformedResponse);
        },
    };
    let temperature_2m_max = match temps_from_texts(&max_texts) {
        Some(t) => t,
        None => {
            return Err(WeatherError::MalformedResponse);
        },
    };
    let temperature_2m_min = match temps_from_texts(&min_texts) {
        Some(t) => t,
        None => {
            return Err(WeatherError::MalformedResponse);
        },
    };
    if time.len() != temperature_2m_max.len() || time.len() != temperature_2m_min.len() {
        return Err(WeatherError::MalformedResponse);
    }
    let unit_max = match nested_string_member(body, "daily_units", "temperature_2m_max") {
        Some(Some(u)) => u,
        _ => {
            return Err(WeatherError::MalformedResponse);
        },
    };
    let unit_min = match nested_string_member(body, "daily_units", "temperature_2m_min") {
        Some(Some(u)) => u,
        _ => {
            return Err(WeatherError::MalformedResponse);
        },
    };
    let elevation = match number_member(body, "elevation") {
        Some(Some(t)) => t,
        _ => {
            return Err(WeatherError::MalformedResponse);
        },
    };
    let generationtime_ms = match number_member(body, "generationtime_ms") {
        Some(Some(t)) => t,
        _ => {
            return Err(WeatherError::MalformedResponse);
        },
    };
    let latitude = match number_member(body, "latitude") {
        Some(Some(t)) => t,
        _ => {
            return Err(WeatherError::MalformedResponse);
        },
    };
    let longitude = match number_member(body, "longitude") {
        Some(Some(t)) => t,
        _ => {
            return Err(WeatherError::MalformedResponse);
        },
    };
    let timezone = match string_member(body, "timezone") {
        Some(Some(t)) => t,
        _ => {
            return Err(WeatherError::MalformedResponse);
        },
    };
    let timezone_abbreviation = match string_member(body, "timezone_abbreviation") {
        Some(Some(t)) => t,
        _ => {
            return Err(WeatherError::MalformedResponse);
        },
    };
    let offset_text = match number_member(body, "utc_offset_seconds") {
        Some(Some(t)) => t,
        _ => {
            return Err(WeatherError::MalformedResponse);
        },
    };
    let utc_offset_seconds = match parse_int(offset_text.as_str()) {
        Some(o) => o,
        None => {
            return Err(WeatherError::MalformedResponse);
        },
    };
    proof {
        let b = body@;
        assert(spec_read_maxs(b) == Some(max_texts.deep_view()));
        assert(spec_read_mins(b) == Some(min_texts.deep_view()));
        assert forall|i: int| 0 <= i < spec_read_maxs(b).unwrap().len() implies spec_parse_tenths(
            #[trigger] spec_read_maxs(b).unwrap()[i],
        ) == Some(temperature_2m_max[i] as int) by {
            assert(spec_parse_tenths(max_texts.deep_view()[i]) == Some(
                temperature_2m_max[i] as int,
            ));
        }
        assert forall|i: int| 0 <= i < spec_read_mins(b).unwrap().len() implies spec_parse_tenths(
            #[trigger] spec_read_mins(b).unwrap()[i],
        ) == Some(temperature_2m_min[i] as int) by {
            assert(spec_parse_tenths(min_texts.deep_view()[i]) == Some(
                temperature_2m_min[i] as int,
            ));
        }
        assert forall|i: int|
            0 <= i < temperature_2m_max.len() implies tenths_in_range(
            #[trigger] temperature_2m_max[i] as int,
        ) by {
            assert(spec_parse_tenths(max_texts.deep_view()[i]) == Some(
                temperature_2m_max[i] as int,
            ));
        }
        assert forall|i: int|
            0 <= i < temperature_2m_min.len() implies tenths_in_range(
            #[trigger] temperature_2m_min[i] as int,
        ) by {
            assert(spec_parse_tenths(min_texts.deep_view()[i]) == Some(
                temperature_2m_min[i] as int,
            ));
        }
    }
    Ok(
        ForecastResult {
            daily: DailySeries { time, temperature_2m_max, temperature_2m_min },
            daily_units: DailyUnits {
                temperature_2m_max: unit_max,
                temperature_2m_min: unit_min,
            },
            elevation,
            generationtime_ms,
            latitude,
            longitude,
            timezone,
            timezone_abbreviation,
            utc_offset_seconds,
        },
    )
}

} // verus!
