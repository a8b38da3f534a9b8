use rusty_weather::errors::WeatherError;
use rusty_weather::forecast::extract_timezone_id;
use rusty_weather::forecast::parse_forecast;
use rusty_weather::forecast::ForecastResult;
use rusty_weather::location::parse_location;
use rusty_weather::location::Location;
use rusty_weather::numbers::fmt_i64;
use rusty_weather::numbers::fmt_tenths;
use rusty_weather::numbers::fmt_u64;
use rusty_weather::numbers::parse_int;
use rusty_weather::numbers::parse_tenths;
use rusty_weather::report::forecast_url;
use rusty_weather::report::format_report;
use rusty_weather::report::timezone_url;
use rusty_weather::report::Config;
use rusty_weather::temperature::celsius_to_fahrenheit_tenths;

fn location_of(s: &str) -> Location {
    match parse_location(s) {
        Ok(loc) => loc,
        Err(_) => panic!("location {} should parse", s),
    }
}

fn forecast_of(body: &str) -> ForecastResult {
    match parse_forecast(body) {
        Ok(fr) => fr,
        Err(_) => panic!("forecast body should parse"),
    }
}

#[test]
fn location_without_comma_is_rejected() {
    assert!(matches!(
        parse_location("52.52"),
        Err(WeatherError::InvalidLocation)
    ));
    assert!(matches!(
        parse_location(""),
        Err(WeatherError::InvalidLocation)
    ));
    assert!(matches!(
        parse_location("berlin"),
        Err(WeatherError::InvalidLocation)
    ));
}

#[test]
fn location_splits_at_first_comma() {
    let loc = location_of("52.52,13.405");
    assert_eq!(loc.latitude, "52.52");
    assert_eq!(loc.longitude, "13.405");
}

#[test]
fn location_third_part_is_ignored() {
    let loc = location_of("a,b,c");
    assert_eq!(loc.latitude, "a");
    assert_eq!(loc.longitude, "b");
}

#[test]
fn location_trailing_comma_gives_empty_longitude() {
    let loc = location_of("52.52,");
    assert_eq!(loc.latitude, "52.52");
    assert_eq!(loc.longitude, "");
}

#[test]
fn conversion_matches_formula_exactly() {
    // representative whole-degree readings, in tenths
    assert_eq!(celsius_to_fahrenheit_tenths(-400), -400);
    assert_eq!(celsius_to_fahrenheit_tenths(0), 320);
    assert_eq!(celsius_to_fahrenheit_tenths(370), 986);
    assert_eq!(celsius_to_fahrenheit_tenths(1000), 2120);
}

#[test]
fn conversion_is_deterministic() {
    for c in [-400i64, -20, 0, 100, 370, 1000] {
        assert_eq!(
            celsius_to_fahrenheit_tenths(c),
            celsius_to_fahrenheit_tenths(c)
        );
    }
}

#[test]
fn tenths_formatting() {
    assert_eq!(fmt_tenths(320), "32.0");
    assert_eq!(fmt_tenths(2120), "212.0");
    assert_eq!(fmt_tenths(-400), "-40.0");
    assert_eq!(fmt_tenths(986), "98.6");
    assert_eq!(fmt_tenths(284), "28.4");
    assert_eq!(fmt_tenths(0), "0.0");
    assert_eq!(fmt_tenths(-5), "-0.5");
}

#[test]
fn integer_formatting() {
    assert_eq!(fmt_u64(0), "0");
    assert_eq!(fmt_u64(7200), "7200");
    assert_eq!(fmt_i64(-3600), "-3600");
    assert_eq!(fmt_i64(0), "0");
}

#[test]
fn tenths_parsing() {
    assert_eq!(parse_tenths("10.0"), Some(100));
    assert_eq!(parse_tenths("-2.0"), Some(-20));
    assert_eq!(parse_tenths("0"), Some(0));
    assert_eq!(parse_tenths("37"), Some(370));
    assert_eq!(parse_tenths("3.75"), Some(37));
    assert_eq!(parse_tenths("-0.05"), Some(0));
    assert_eq!(parse_tenths(""), None);
    assert_eq!(parse_tenths("-"), None);
    assert_eq!(parse_tenths("abc"), None);
    assert_eq!(parse_tenths("1."), None);
    assert_eq!(parse_tenths(".5"), None);
    assert_eq!(parse_tenths("1e5"), None);
    assert_eq!(parse_tenths("1234567890123456"), None);
}

#[test]
fn integer_parsing() {
    assert_eq!(parse_int("7200"), Some(7200));
    assert_eq!(parse_int("-3600"), Some(-3600));
    assert_eq!(parse_int("0"), Some(0));
    assert_eq!(parse_int("7200.0"), None);
    assert_eq!(parse_int(""), None);
    assert_eq!(parse_int("12x"), None);
}

#[test]
fn timezone_id_is_extracted() {
    let r = extract_timezone_id("{\"timezoneId\":\"Europe/Berlin\"}");
    assert_eq!(r, Ok(String::from("Europe/Berlin")));
}

#[test]
fn timezone_response_without_field_is_refused() {
    assert_eq!(
        extract_timezone_id("{\"status\":\"ok\"}"),
        Err(WeatherError::MissingTimezone)
    );
    assert_eq!(
        extract_timezone_id("{\"timezoneId\":5}"),
        Err(WeatherError::MissingTimezone)
    );
}

#[test]
fn timezone_response_that_is_no_json_is_refused() {
    assert_eq!(
        extract_timezone_id("not json"),
        Err(WeatherError::MalformedResponse)
    );
}

#[test]
fn url_construction() {
    let loc = location_of("52.52,13.405");
    assert_eq!(
        timezone_url(&loc, "demo"),
        "http://api.geonames.org/timezoneJSON?lat=52.52&lng=13.405&username=demo"
    );
    let config = Config::new();
    assert_eq!(
        forecast_url(&config, &loc, "Europe/Berlin"),
        "https://api.open-meteo.com/v1/forecast?latitude=52.52&longitude=13.405\
         &timezone=Europe/Berlin&daily=temperature_2m_min,temperature_2m_max"
    );
}

fn berlin_forecast_body() -> String {
    String::from(
        "{\"daily\":{\"time\":[\"2024-01-01\"],\
         \"temperature_2m_max\":[10.0],\"temperature_2m_min\":[-2.0]},\
         \"daily_units\":{\"temperature_2m_max\":\"\u{b0}C\",\"temperature_2m_min\":\"\u{b0}C\"},\
         \"elevation\":38.0,\"generationtime_ms\":0.123,\
         \"latitude\":52.52,\"longitude\":13.405,\
         \"timezone\":\"Europe/Berlin\",\"timezone_abbreviation\":\"CET\",\
         \"utc_offset_seconds\":3600}",
    )
}

#[test]
fn forecast_body_parses_into_aligned_series() {
    let fr = forecast_of(&berlin_forecast_body());
    assert_eq!(fr.daily.time, vec![String::from("2024-01-01")]);
    assert_eq!(fr.daily.temperature_2m_max, vec![100]);
    assert_eq!(fr.daily.temperature_2m_min, vec![-20]);
    assert_eq!(fr.daily_units.temperature_2m_max, "\u{b0}C");
    assert_eq!(fr.timezone, "Europe/Berlin");
    assert_eq!(fr.timezone_abbreviation, "CET");
    assert_eq!(fr.utc_offset_seconds, 3600);
    assert_eq!(fr.elevation, "38.0");
    assert_eq!(fr.latitude, "52.52");
    assert_eq!(fr.longitude, "13.405");
}

#[test]
fn forecast_without_daily_is_refused() {
    assert!(matches!(
        parse_forecast("{\"elevation\":38.0}"),
        Err(WeatherError::MalformedResponse)
    ));
    assert!(matches!(
        parse_forecast("no json at all"),
        Err(WeatherError::MalformedResponse)
    ));
}

#[test]
fn forecast_with_misaligned_series_is_refused() {
    let body = "{\"daily\":{\"time\":[\"2024-01-01\",\"2024-01-02\"],\
        \"temperature_2m_max\":[10.0],\"temperature_2m_min\":[-2.0]},\
        \"daily_units\":{\"temperature_2m_max\":\"C\",\"temperature_2m_min\":\"C\"},\
        \"elevation\":38.0,\"generationtime_ms\":0.1,\"latitude\":1.0,\"longitude\":2.0,\
        \"timezone\":\"UTC\",\"timezone_abbreviation\":\"UTC\",\"utc_offset_seconds\":0}";
    assert!(matches!(
        parse_forecast(&body),
        Err(WeatherError::MalformedResponse)
    ));
}

#[test]
fn report_has_one_block_per_day() {
    let body = "{\"daily\":{\"time\":[\"2024-01-01\",\"2024-01-02\",\"2024-01-03\"],\
        \"temperature_2m_max\":[0.0,100.0,-40.0],\"temperature_2m_min\":[-1.0,-2.0,-3.0]},\
        \"daily_units\":{\"temperature_2m_max\":\"C\",\"temperature_2m_min\":\"C\"},\
        \"elevation\":1.0,\"generationtime_ms\":0.1,\"latitude\":1.0,\"longitude\":2.0,\
        \"timezone\":\"UTC\",\"timezone_abbreviation\":\"UTC\",\"utc_offset_seconds\":0}";
    let fr = forecast_of(body);
    let lines = format_report("1.0,2.0", &fr);
    assert_eq!(lines.len(), 8 + 4 * 3);
    assert_eq!(lines[8], "Date: 2024-01-01");
    assert_eq!(lines[9], "Max Temperature: 32.0 F");
    assert_eq!(lines[13], "Max Temperature: 212.0 F");
    assert_eq!(lines[17], "Max Temperature: -40.0 F");
    assert_eq!(lines[18], "Min Temperature: 26.6 F");
    assert_eq!(lines[19], "");
}

#[test]
fn berlin_scenario_end_to_end() {
    let tz = match extract_timezone_id("{\"timezoneId\":\"Europe/Berlin\"}") {
        Ok(tz) => tz,
        Err(_) => panic!("timezone should be found"),
    };
    assert_eq!(tz, "Europe/Berlin");
    let fr = forecast_of(&berlin_forecast_body());
    let lines = format_report("52.52,13.405", &fr);
    assert_eq!(lines.len(), 12);
    assert_eq!(lines[0], "Weather data for 52.52,13.405:");
    assert_eq!(lines[1], "Timezone: Europe/Berlin");
    assert_eq!(lines[2], "Elevation: 38.0 meters");
    assert_eq!(lines[3], "Generation Time (ms): 0.123");
    assert_eq!(lines[4], "Latitude: 52.52");
    assert_eq!(lines[5], "Longitude: 13.405");
    assert_eq!(lines[6], "Timezone Abbreviation: CET");
    assert_eq!(lines[7], "UTC Offset (seconds): 3600");
    assert_eq!(lines[8], "Date: 2024-01-01");
    assert_eq!(lines[9], "Max Temperature: 50.0 F");
    assert_eq!(lines[10], "Min Temperature: 28.4 F");
    assert_eq!(lines[11], "");
}

#[test]
fn well_formedness_check_accepts_parsed_forecast() {
    let fr = forecast_of(&berlin_forecast_body());
    assert!(fr.is_well_formed());
}

#[test]
fn well_formedness_check_rejects_misaligned_series() {
    let mut fr = forecast_of(&berlin_forecast_body());
    fr.daily.temperature_2m_min.push(0);
    assert!(!fr.is_well_formed());
    let mut fr = forecast_of(&berlin_forecast_body());
    fr.daily.temperature_2m_max[0] = 10_000_000_000_000_000;
    assert!(!fr.is_well_formed());
    let mut fr = forecast_of(&berlin_forecast_body());
    fr.utc_offset_seconds = i64::MIN;
    assert!(!fr.is_well_formed());
}

#[test]
fn forecast_with_non_numeric_temperature_is_refused() {
    let body = "{\"daily\":{\"time\":[\"2024-01-01\"],\
        \"temperature_2m_max\":[\"high\"],\"temperature_2m_min\":[-2.0]},\
        \"daily_units\":{\"temperature_2m_max\":\"C\",\"temperature_2m_min\":\"C\"},\
        \"elevation\":38.0,\"generationtime_ms\":0.1,\"latitude\":1.0,\"longitude\":2.0,\
        \"timezone\":\"UTC\",\"timezone_abbreviation\":\"UTC\",\"utc_offset_seconds\":0}";
    assert!(matches!(
        parse_forecast(body),
        Err(WeatherError::MalformedResponse)
    ));
}

#[test]
fn error_messages() {
    assert_eq!(
        WeatherError::InvalidLocation.message(),
        "invalid location format"
    );
    assert_eq!(
        WeatherError::MissingTimezone.message(),
        "Failed to fetch timezone data"
    );
    assert_eq!(
        WeatherError::MalformedResponse.message(),
        "malformed service response"
    );
}
