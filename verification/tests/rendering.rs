use wx::clock::{day_second, epoch_to_time, shifted_clock};
use wx::icon::{match_icon, Sky};
use wx::text::{decimal_string, join_spaced, parse_decimal};
use wx::{Clouds, CurrentWeather, Field, Location, Main, Measure, Reading, Sys, Weather, Wind};

fn reading(value: f64) -> Reading {
    Reading::from_bits(value.to_bits()).unwrap()
}

/// The nearest whole number as the machine rounds and writes it, zero
/// written without a sign.
fn nearest(value: f64) -> String {
    let rounded = value.round();
    if rounded == 0.0 {
        "0".to_string()
    } else {
        format!("{}", rounded)
    }
}

fn condition(icon: &str, description: &str) -> Weather {
    Weather { id: 800, main: "Clear".to_string(), description: description.to_string(), icon: icon.to_string() }
}

fn report(conditions: Vec<Weather>, temp: f64, feels_like: f64, humidity: u64, dt: i64, timezone: i64) -> CurrentWeather {
    CurrentWeather {
        coord: None,
        weather: conditions,
        base: "stations".to_string(),
        main: Main {
            temp: reading(temp),
            feels_like: reading(feels_like),
            pressure: 1012,
            humidity,
            temp_min: Measure { bits: temp.to_bits() },
            temp_max: Measure { bits: temp.to_bits() },
        },
        visibility: 10000,
        wind: Wind { speed: Measure { bits: 4.1f64.to_bits() }, deg: 80, gust: None },
        clouds: Clouds { all: 0 },
        dt,
        sys: Sys { type_: 1, id: 1414, message: None, country: "GB".to_string(), sunrise: 0, sunset: 0 },
        timezone,
        id: 2643743,
        name: "London".to_string(),
        cod: 200,
    }
}

fn names(list: &[&str]) -> Vec<String> {
    list.iter().map(|name| name.to_string()).collect()
}

#[test]
fn location_without_state_has_two_parts() {
    assert_eq!(Location::new("London", "", "GB").to_string(), "London,GB");
    assert_eq!(Location::new("", "", "").to_string(), ",");
}

#[test]
fn location_with_state_has_three_parts() {
    assert_eq!(Location::new("Austin", "TX", "US").to_string(), "Austin,TX,US");
    assert_eq!(Location::new("São Paulo", "SP", "BR").to_string(), "São Paulo,SP,BR");
}

#[test]
fn location_keeps_its_parts() {
    let place = Location::new("Austin", "TX", "US");
    assert_eq!(place.city, "Austin");
    assert_eq!(place.state, "TX");
    assert_eq!(place.country, "US");
}

#[test]
fn temperature_rounds_to_the_nearest_degree() {
    assert_eq!(report(vec![], 15.4, 0.0, 0, 0, 0).get("temp"), "15°");
    assert_eq!(report(vec![], -0.6, 0.0, 0, 0, 0).get("temp"), "-1°");
    assert_eq!(report(vec![], 15.0, 0.0, 0, 0, 0).get("temp"), "15°");
    assert_eq!(report(vec![], 15.5, 0.0, 0, 0, 0).get("temp"), "16°");
    assert_eq!(report(vec![], -15.5, 0.0, 0, 0, 0).get("temp"), "-16°");
    assert_eq!(report(vec![], 282.55, 0.0, 0, 0, 0).get("temp"), "283°");
}

#[test]
fn felt_temperature_rounds_like_temperature() {
    assert_eq!(report(vec![], 0.0, 15.4, 0, 0, 0).get("feels_like"), "15°");
    assert_eq!(report(vec![], 0.0, -0.6, 0, 0, 0).get("feels_like"), "-1°");
}

#[test]
fn a_half_rounds_away_from_zero() {
    assert_eq!(reading(0.5).rounded_string(), "1");
    assert_eq!(reading(-0.5).rounded_string(), "-1");
    assert_eq!(reading(2.5).rounded_string(), "3");
    assert_eq!(reading(-2.5).rounded_string(), "-3");
    assert_eq!(reading(0.49999999999999994).rounded_string(), "0");
    assert_eq!(reading(4503599627370495.5).rounded_string(), "4503599627370496");
}

#[test]
fn a_reading_that_rounds_to_zero_has_no_sign() {
    assert_eq!(reading(0.0).rounded_string(), "0");
    assert_eq!(reading(-0.0).rounded_string(), "0");
    assert_eq!(reading(-0.4).rounded_string(), "0");
    assert_eq!(reading(-0.49999999999999994).rounded_string(), "0");
    assert_eq!(reading(-5e-324).rounded_string(), "0");
    assert_eq!(reading(0.4).rounded_string(), "0");
    assert_eq!(reading(-0.5).rounded_string(), "-1");
    assert_eq!(report(vec![], -0.4, -0.0, 0, 0, 0).get("temp"), "0°");
    assert_eq!(report(vec![], -0.4, -0.0, 0, 0, 0).get("feels_like"), "0°");
}

#[test]
fn rounding_agrees_with_the_machine() {
    let values = [
        0.0, -0.0, -0.4, 1.0, -1.0, 0.1, 0.9, 1.5, 1.4999999999999998, 99.5, 100.49, 273.15, -273.15, 1e-320, 5e-324, 1e15,
        4503599627370496.0, 4503599627370497.0, 9007199254740991.0, -9007199254740991.0, 123456.789, 0.75,
    ];
    for value in values {
        assert_eq!(reading(value).rounded_string(), nearest(value));
    }
}

#[test]
fn rounding_agrees_with_the_machine_on_many_patterns() {
    let mut state: u64 = 0x9E37_79B9_7F4A_7C15;
    let mut seen = 0;
    while seen < 100_000 {
        state = state.wrapping_mul(6364136223846793005).wrapping_add(1442695040888963407);
        let bits = state ^ (state >> 29);
        if let Some(reading) = Reading::from_bits(bits) {
            let value = f64::from_bits(bits);
            assert_eq!(reading.rounded_string(), nearest(value), "{:e}", value);
            seen += 1;
        } else {
            let value = f64::from_bits(bits);
            assert!(value.is_nan() || value.abs() >= 9007199254740992.0);
        }
    }
}

#[test]
fn rounding_agrees_with_the_machine_near_whole_numbers() {
    let mut whole: f64 = -300.0;
    while whole <= 300.0 {
        for part in [0.0, 0.25, 0.49, 0.4999999999999, 0.5, 0.5000000000001, 0.51, 0.75, 0.99] {
            let value = whole + part;
            let reading = Reading::from_bits(value.to_bits()).unwrap();
            assert_eq!(reading.rounded_string(), nearest(value), "{}", value);
        }
        whole += 1.0;
    }
}

#[test]
fn round_gives_the_magnitude() {
    assert_eq!(reading(15.4).round(), 15);
    assert_eq!(reading(-15.6).round(), 16);
    assert!(reading(-15.6).is_negative());
    assert!(!reading(15.6).is_negative());
}

#[test]
fn readings_are_finite_and_below_two_to_the_53() {
    assert!(Reading::from_bits(f64::NAN.to_bits()).is_none());
    assert!(Reading::from_bits(f64::INFINITY.to_bits()).is_none());
    assert!(Reading::from_bits(f64::NEG_INFINITY.to_bits()).is_none());
    assert!(Reading::from_bits(9007199254740992.0f64.to_bits()).is_none());
    assert!(Reading::from_bits(f64::MAX.to_bits()).is_none());
    assert!(Reading::from_bits(9007199254740991.0f64.to_bits()).is_some());
    assert!(Reading::from_bits(f64::MIN_POSITIVE.to_bits()).is_some());
    assert_eq!(reading(15.4).to_bits(), 15.4f64.to_bits());
}

#[test]
fn humidity_is_a_percentage() {
    assert_eq!(report(vec![], 0.0, 0.0, 81, 0, 0).get("humidity"), "81%");
    assert_eq!(report(vec![], 0.0, 0.0, 0, 0, 0).get("humidity"), "0%");
    assert_eq!(report(vec![], 0.0, 0.0, 100, 0, 0).get("humidity"), "100%");
}

#[test]
fn description_is_passed_through() {
    let weather = report(vec![condition("01d", "clear sky"), condition("10d", "rain")], 0.0, 0.0, 0, 0, 0);
    assert_eq!(weather.get("description"), "clear sky");
}

#[test]
fn icon_is_that_of_the_first_condition() {
    let weather = report(vec![condition("10n", "rain"), condition("01d", "clear sky")], 0.0, 0.0, 0, 0, 0);
    assert_eq!(weather.get("icon"), "\u{e371}");
}

#[test]
fn time_is_the_local_wall_clock() {
    assert_eq!(report(vec![], 0.0, 0.0, 0, 0, 3600).get("time"), "01:00:00");
    assert_eq!(report(vec![], 0.0, 0.0, 0, 1_700_000_000, 0).get("time"), "22:13:20");
    assert_eq!(report(vec![], 0.0, 0.0, 0, 1_700_000_000, -18_000).get("time"), "17:13:20");
    assert_eq!(report(vec![], 0.0, 0.0, 0, 0, -3600).get("time"), "23:00:00");
}

#[test]
fn unknown_field_is_a_placeholder() {
    let weather = report(vec![], 0.0, 0.0, 0, 0, 0);
    assert_eq!(weather.get("pressure"), "('pressure?')");
    assert!(weather.get("pressure").contains("pressure"));
    assert_eq!(weather.get(""), "('?')");
    assert_eq!(weather.get("Temp"), "('Temp?')");
}

#[test]
fn show_gives_the_part() {
    let weather = report(vec![condition("13d", "snow")], -3.2, -7.9, 93, 86_399, 1);
    assert_eq!(weather.show(Field::Icon), "\u{f2dc}");
    assert_eq!(weather.show(Field::Temp), "-3°");
    assert_eq!(weather.show(Field::FeelsLike), "-8°");
    assert_eq!(weather.show(Field::Humidity), "93%");
    assert_eq!(weather.show(Field::Description), "snow");
    assert_eq!(weather.show(Field::Time), "00:00:00");
}

#[test]
fn a_report_without_conditions_shows_what_reads_none() {
    let weather = report(vec![], 0.0, 0.0, 0, 0, 0);
    assert!(!weather.can_show("icon"));
    assert!(!weather.can_show("description"));
    assert!(weather.can_show("temp"));
    assert!(weather.can_show("feels_like"));
    assert!(weather.can_show("humidity"));
    assert!(weather.can_show("time"));
    assert!(weather.can_show("pressure"));
    assert!(!weather.can_show_all(&names(&["temp", "icon"])));
    assert!(weather.can_show_all(&names(&["temp", "time", "wind"])));
    assert!(weather.can_show_all(&names(&[])));
    let full = report(vec![condition("01d", "clear sky")], 0.0, 0.0, 0, 0, 0);
    assert!(full.can_show("icon"));
    assert!(full.can_show_all(&names(&["temp", "icon", "description"])));
}

#[test]
fn line_joins_the_parts_in_their_order() {
    let weather = report(vec![condition("01d", "clear sky")], 15.0, 13.7, 40, 0, 3600);
    assert_eq!(weather.line(&names(&["icon", "temp"])), "\u{e30d} 15°");
    assert_eq!(weather.line(&names(&["temp", "icon"])), "15° \u{e30d}");
    assert_eq!(
        weather.line(&names(&["description", "wind", "humidity", "time", "feels_like"])),
        "clear sky ('wind?') 40% 01:00:00 14°"
    );
    assert_eq!(weather.line(&names(&["temp"])), "15°");
    assert_eq!(weather.line(&names(&[])), "");
    assert_eq!(weather.line(&names(&["temp", "temp"])), "15° 15°");
}

#[test]
fn every_code_of_the_table_has_its_symbol() {
    let table = [
        ("01", "\u{e30d}"),
        ("02", "\u{e302}"),
        ("03", "\u{fa8f}"),
        ("04", "\u{e312}"),
        ("09", "\u{e34a}"),
        ("10", "\u{e371}"),
        ("11", "\u{e315}"),
        ("13", "\u{f2dc}"),
        ("50", "\u{e31e}"),
    ];
    for (kind, symbol) in table {
        assert_eq!(match_icon(&format!("{}d", kind)), symbol);
        assert_eq!(match_icon(&format!("{}n", kind)), symbol);
    }
}

#[test]
fn any_other_code_is_a_question_mark() {
    for code in ["", "01", "01x", "01dd", "1d", "05d", "12n", "51d", "D01", "01D", "?", "clear"] {
        assert_eq!(match_icon(code), "?");
    }
}

#[test]
fn a_code_names_its_sky() {
    assert_eq!(Sky::from_code("01d"), Some(Sky::Clear));
    assert_eq!(Sky::from_code("02n"), Some(Sky::FewClouds));
    assert_eq!(Sky::from_code("03d"), Some(Sky::ScatteredClouds));
    assert_eq!(Sky::from_code("04n"), Some(Sky::BrokenClouds));
    assert_eq!(Sky::from_code("09d"), Some(Sky::ShowerRain));
    assert_eq!(Sky::from_code("10n"), Some(Sky::Rain));
    assert_eq!(Sky::from_code("11d"), Some(Sky::Thunderstorm));
    assert_eq!(Sky::from_code("13n"), Some(Sky::Snow));
    assert_eq!(Sky::from_code("50d"), Some(Sky::Mist));
    assert_eq!(Sky::from_code("60d"), None);
    assert_eq!(Sky::Mist.symbol(), "\u{e31e}");
}

#[test]
fn a_name_asks_for_its_part() {
    for field in [Field::Icon, Field::Temp, Field::FeelsLike, Field::Humidity, Field::Description, Field::Time] {
        assert_eq!(Field::parse(field.as_str()), Some(field));
    }
    assert_eq!(Field::parse("feels_like"), Some(Field::FeelsLike));
    assert_eq!(Field::parse("feels-like"), None);
    assert_eq!(Field::parse(""), None);
    assert!(Field::Icon.needs_condition());
    assert!(Field::Description.needs_condition());
    assert!(!Field::Temp.needs_condition());
    assert!(!Field::Time.needs_condition());
}

#[test]
fn one_o_clock_an_hour_after_the_epoch() {
    assert_eq!(epoch_to_time(3600), "01:00:00");
    assert_eq!(epoch_to_time(0), "00:00:00");
    assert_eq!(epoch_to_time(86_399), "23:59:59");
    assert_eq!(epoch_to_time(86_400), "00:00:00");
    assert_eq!(epoch_to_time(1_700_000_000), "22:13:20");
    assert_eq!(epoch_to_time(45_296), "12:34:56");
}

#[test]
fn the_clock_runs_before_the_epoch_too() {
    assert_eq!(epoch_to_time(-1), "23:59:59");
    assert_eq!(epoch_to_time(-86_400), "00:00:00");
    assert_eq!(epoch_to_time(i64::MIN), "08:29:52");
    assert_eq!(epoch_to_time(i64::MAX), "15:30:07");
    assert_eq!(day_second(-1), 86_399);
    assert_eq!(day_second(86_401), 1);
}

#[test]
fn the_clock_counts_seconds_minutes_and_hours() {
    let mut instant: i64 = -200_000;
    while instant < 200_000 {
        let second = instant.rem_euclid(86_400);
        let expected = format!("{:02}:{:02}:{:02}", second / 3600, second / 60 % 60, second % 60);
        assert_eq!(epoch_to_time(instant), expected);
        instant += 61;
    }
}

#[test]
fn a_shifted_clock_takes_the_sum_in_whole_numbers() {
    assert_eq!(shifted_clock(0, 3600), "01:00:00");
    assert_eq!(shifted_clock(86_399, 1), "00:00:00");
    assert_eq!(shifted_clock(i64::MAX, i64::MAX), "07:00:14");
    assert_eq!(shifted_clock(i64::MIN, i64::MIN), "16:59:44");
    assert_eq!(shifted_clock(i64::MAX, i64::MIN), "23:59:59");
}

#[test]
fn decimal_numerals() {
    assert_eq!(decimal_string(0), "0");
    assert_eq!(decimal_string(7), "7");
    assert_eq!(decimal_string(10), "10");
    assert_eq!(decimal_string(1_000_000), "1000000");
    assert_eq!(decimal_string(u64::MAX), "18446744073709551615");
}

#[test]
fn numerals_are_read() {
    assert_eq!(parse_decimal("0"), Some(0));
    assert_eq!(parse_decimal("404"), Some(404));
    assert_eq!(parse_decimal("0404"), Some(404));
    assert_eq!(parse_decimal("18446744073709551615"), Some(u64::MAX));
    assert_eq!(parse_decimal("18446744073709551616"), None);
    assert_eq!(parse_decimal("99999999999999999999"), None);
    assert_eq!(parse_decimal("00000000000000000404"), Some(404));
    assert_eq!(parse_decimal("000000000000000000404"), None);
    assert_eq!(parse_decimal(""), None);
    assert_eq!(parse_decimal("+404"), None);
    assert_eq!(parse_decimal("-1"), None);
    assert_eq!(parse_decimal("40 4"), None);
    assert_eq!(parse_decimal("404 "), None);
    assert_eq!(parse_decimal("4o4"), None);
    assert_eq!(parse_decimal("٤٠٤"), None);
    for n in [0, 9, 10, 99, 100, 200, 401, 12345678901234567890, u64::MAX] {
        assert_eq!(parse_decimal(&decimal_string(n)), Some(n));
    }
}

#[test]
fn a_measure_is_a_reading_where_it_is_in_range() {
    assert_eq!(Measure { bits: 15.4f64.to_bits() }.reading(), Reading::from_bits(15.4f64.to_bits()));
    assert!(Measure { bits: 15.4f64.to_bits() }.reading().is_some());
    assert!(Measure { bits: f64::NAN.to_bits() }.reading().is_none());
    assert!(Measure { bits: 1e300f64.to_bits() }.reading().is_none());
}

#[test]
fn parts_are_joined_by_single_spaces() {
    assert_eq!(join_spaced(&names(&[])), "");
    assert_eq!(join_spaced(&names(&["a"])), "a");
    assert_eq!(join_spaced(&names(&["a", "b", "c"])), "a b c");
    assert_eq!(join_spaced(&names(&["", ""])), " ");
}
