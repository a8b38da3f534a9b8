use vstd::prelude::*;
use vstd::string::StringExecFns;
use crate::forecast::ForecastResult;
use crate::location::Location;
use crate::numbers::fmt_i64;
use crate::numbers::fmt_tenths;
use crate::numbers::spec_int_str;
use crate::numbers::spec_tenths_str;
use crate::temperature::celsius_to_fahrenheit_tenths;
use crate::temperature::spec_c_to_f;

verus! {

/// Where the forecast service lives.
pub struct Config {
    pub base_url: String,
}

impl Config {
    /// A configuration pointing at the public forecast endpoint.
    pub fn new() -> (r: Self)
        ensures
            r.base_url@ == "https://api.open-meteo.com/v1/forecast"@,
    {
        Config { base_url: String::from_str("https://api.open-meteo.com/v1/forecast") }
    }
}

/// The timezone lookup URL for a location and an account name.
pub open spec fn spec_timezone_url(lat: Seq<char>, lon: Seq<char>, user: Seq<char>) -> Seq<char> {
    "http://api.geonames.org/timezoneJSON?lat="@ + lat + "&lng="@ + lon + "&username="@ + user
}

/// Builds the GET URL for the timezone lookup. The account name is
/// handed in by the caller rather than baked into the library.
pub fn timezone_url(loc: &Location, username: &str) -> (r: String)
    ensures
        r@ == spec_timezone_url(loc.latitude@, loc.longitude@, username@),
{
    let mut r = String::from_str("http://api.geonames.org/timezoneJSON?lat=");
    r.append(loc.latitude.as_str());
    r.append("&lng=");
    r.append(loc.longitude.as_str());
    r.append("&username=");
    r.append(username);
    proof {
        assert(r@ =~= spec_timezone_url(loc.latitude@, loc.longitude@, username@));
    }
    r
}

/// The forecast URL for a base endpoint, a location and a timezone,
/// asking for the daily minimum and maximum temperature series.
pub open spec fn spec_forecast_url(
    base: Seq<char>,
    lat: Seq<char>,
    lon: Seq<char>,
    tz: Seq<char>,
) -> Seq<char> {
    base + "?latitude="@ + lat + "&longitude="@ + lon + "&timezone="@ + tz
        + "&daily=temperature_2m_min,temperature_2m_max"@
}

/// Builds the GET URL for the forecast fetch.
pub fn forecast_url(config: &Config, loc: &Location, timezone_id: &str) -> (r: String)
    ensures
        r@ == spec_forecast_url(config.base_url@, loc.latitude@, loc.longitude@, timezone_id@),
{
    let mut r = config.base_url.clone();
    r.append("?latitude=");
    r.append(loc.latitude.as_str());
    r.append("&longitude=");
    r.append(loc.longitude.as_str());
    r.append("&timezone=");
    r.append(timezone_id);
    r.append("&daily=temperature_2m_min,temperature_2m_max");
    proof {
        assert(r@ =~= spec_forecast_url(
            config.base_url@,
            loc.latitude@,
            loc.longitude@,
            timezone_id@,
        ));
    }
    r
}

/// The eight summary lines that open a report.
pub open spec fn spec_header_lines(loc: Seq<char>, fr: ForecastResult) -> Seq<Seq<char>> {
    seq![
        "Weather data for "@ + loc + ":"@,
        "Timezone: "@ + fr.timezone@,
        "Elevation: "@ + fr.elevation@ + " meters"@,
        "Generation Time (ms): "@ + fr.generationtime_ms@,
        "Latitude: "@ + fr.latitude@,
        "Longitude: "@ + fr.longitude@,
        "Timezone Abbreviation: "@ + fr.timezone_abbreviation@,
        "UTC Offset (seconds): "@ + spec_int_str(fr.utc_offset_seconds as int),
    ]
}

/// One day's block: the date, the two readings converted to Fahrenheit,
/// and a blank separator line.
pub open spec fn spec_day_block(date: Seq<char>, maxt: int, mint: int) -> Seq<Seq<char>> {
    seq![
        "Date: "@ + date,
        "Max Temperature: "@ + spec_tenths_str(spec_c_to_f(maxt)) + " F"@,
        "Min Temperature: "@ + spec_tenths_str(spec_c_to_f(mint)) + " F"@,
        Seq::<char>::empty(),
    ]
}

/// The blocks of the first `n` days, in order.
pub open spec fn spec_day_lines(fr: ForecastResult, n: int) -> Seq<Seq<char>>
    decreases n,
{
    if n <= 0 {
        Seq::empty()
    } else {
        spec_day_lines(fr, n - 1) + spec_day_block(
            fr.daily.time[n - 1]@,
            fr.daily.temperature_2m_max[n - 1] as int,
            fr.daily.temperature_2m_min[n - 1] as int,
        )
    }
}

/// The whole report: the header, then one block per day.
pub open spec fn spec_report(loc: Seq<char>, fr: ForecastResult) -> Seq<Seq<char>> {
    spec_header_lines(loc, fr) + spec_day_lines(fr, fr.daily.time.len() as int)
}

/// Renders the report for a location echoed verbatim and a well-formed
/// forecast, line by line, exactly as `spec_report` lays it out.
pub fn format_report(location: &str, fr: &ForecastResult) -> (lines: Vec<String>)
    requires
        fr.wf(),
    ensures
        lines.deep_view() == spec_report(location@, *fr),
{
    let mut lines: Vec<String> = Vec::new();
    lines.push(String::from_str("Weather data for ").concat(location).concat(":"));
    lines.push(String::from_str("Timezone: ").concat(fr.timezone.as_str()));
    lines.push(String::from_str("Elevation: ").concat(fr.elevation.as_str()).concat(" meters"));
    lines.push(String::from_str("Generation Time (ms): ").concat(fr.generationtime_ms.as_str()));
    lines.push(String::from_str("Latitude: ").concat(fr.latitude.as_str()));
    lines.push(String::from_str("Longitude: ").concat(fr.longitude.as_str()));
    lines.push(
        String::from_str("Timezone Abbreviation: ").concat(fr.timezone_abbreviation.as_str()),
    );
    let offset = fmt_i64(fr.utc_offset_seconds);
    lines.push(String::from_str("UTC Offset (seconds): ").concat(offset.as_str()));
    proof {
        assert(lines.deep_view() =~= spec_header_lines(location@, *fr) + spec_day_lines(*fr, 0));
    }
    let n = fr.daily.time.len();
    let mut i: usize = 0;
    while i < n
        invariant
            i <= n,
            n == fr.daily.time.len(),
            fr.wf(),
            lines.deep_view() == spec_header_lines(location@, *fr) + spec_day_lines(*fr, i as int),
        decreases n - i,
    {
        lines.push(String::from_str("Date: ").concat(fr.daily.time[i].as_str()));
        let max_f = celsius_to_fahrenheit_tenths(fr.daily.temperature_2m_max[i]);
        let max_text = fmt_tenths(max_f);
        lines.push(
            String::from_str("Max Temperature: ").concat(max_text.as_str()).concat(" F"),
        );
        let min_f = celsius_to_fahrenheit_tenths(fr.daily.temperature_2m_min[i]);
        let min_text = fmt_tenths(min_f);
        lines.push(
            String::from_str("Min Temperature: ").concat(min_text.as_str()).concat(" F"),
        );
        lines.push(String::new());
        proof {
            let blk = spec_day_block(
                fr.daily.time[i as int]@,
                fr.daily.temperature_2m_max[i as int] as int,
                fr.daily.temperature_2m_min[i as int] as int,
            );
            assert(spec_day_lines(*fr, i + 1) =~= spec_day_lines(*fr, i as int) + blk);
            assert(lines.deep_view() =~= spec_header_lines(location@, *fr) + spec_day_lines(
                *fr,
                i as int,
            ) + blk);
            assert(lines.deep_view() =~= spec_header_lines(location@, *fr) + spec_day_lines(
                *fr,
                i + 1,
            ));
        }
        i = i + 1;
    }
    lines
}

proof fn lemma_day_lines_shape(fr: ForecastResult, n: int)
    requires
        0 <= n <= fr.daily.time.len(),
    ensures
        spec_day_lines(fr, n).len() == 4 * n,
        forall|i: int|
            0 <= i < n ==> #[trigger] spec_day_lines(fr, n).subrange(4 * i, 4 * i + 4)
                == spec_day_block(
                fr.daily.time[i]@,
                fr.daily.temperature_2m_max[i] as int,
                fr.daily.temperature_2m_min[i] as int,
            ),
    decreases n,
{
    if n > 0 {
        lemma_day_lines_shape(fr, n - 1);
        let prev = spec_day_lines(fr, n - 1);
        let blk = spec_day_block(
            fr.daily.time[n - 1]@,
            fr.daily.temperature_2m_max[n - 1] as int,
            fr.daily.temperature_2m_min[n - 1] as int,
        );
        let cur = spec_day_lines(fr, n);
        assert forall|i: int| 0 <= i < n implies #[trigger] cur.subrange(4 * i, 4 * i + 4)
            == spec_day_block(
            fr.daily.time[i]@,
            fr.daily.temperature_2m_max[i] as int,
            fr.daily.temperature_2m_min[i] as int,
        ) by {
            if i < n - 1 {
                assert(cur.subrange(4 * i, 4 * i + 4) =~= prev.subrange(4 * i, 4 * i + 4));
            } else {
                assert(cur.subrange(4 * i, 4 * i + 4) =~= blk);
            }
        }
    }
}

/// Law: the report of a well-formed forecast of N days holds exactly N
/// day blocks after its eight header lines, four lines each, and the
/// block of day `i` shows that day's date and the Fahrenheit
/// conversions of that day's maximum and minimum readings.
pub proof fn lemma_report_day_blocks(loc: Seq<char>, fr: ForecastResult)
    requires
        fr.wf(),
    ensures
        spec_report(loc, fr).len() == 8 + 4 * fr.daily.time.len(),
        forall|i: int|
            0 <= i < fr.daily.time.len() ==> #[trigger] spec_report(loc, fr).subrange(
                8 + 4 * i,
                8 + 4 * i + 4,
            ) == spec_day_block(
                fr.daily.time[i]@,
                fr.daily.temperature_2m_max[i] as int,
                fr.daily.temperature_2m_min[i] as int,
            ),
{
    let n = fr.daily.time.len() as int;
    lemma_day_lines_shape(fr, n);
    let header = spec_header_lines(loc, fr);
    let days = spec_day_lines(fr, n);
    let report = spec_report(loc, fr);
    assert forall|i: int| 0 <= i < n implies #[trigger] report.subrange(8 + 4 * i, 8 + 4 * i + 4)
        == spec_day_block(
        fr.daily.time[i]@,
        fr.daily.temperature_2m_max[i] as int,
        fr.daily.temperature_2m_min[i] as int,
    ) by {
        assert(report.subrange(8 + 4 * i, 8 + 4 * i + 4) =~= days.subrange(4 * i, 4 * i + 4));
    }
}

} // verus!
