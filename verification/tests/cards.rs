use serde_json::Value;
use show_weather_card::condition::{condition_fallback_text, weather_code_to_condition};
use show_weather_card::forecast::{
    CurrentWeather, DailyWeather, GeoLocation, HourlyWeather, WeatherResponse,
};
use show_weather_card::language::normalize_language_code;
use show_weather_card::periods::build_periods_payload;
use show_weather_card::reading::{matrix_safe_number, Reading};
use show_weather_card::run::CardStep;
use show_weather_card::state::build_initial_state;
use show_weather_card::tool::{Input, ShowWeatherCardTool};
use show_weather_card::url::percent_encode;

fn reading(value: f64) -> Reading {
    Reading { bits: value.to_bits() }
}

fn readings(values: &[f64]) -> Vec<Reading> {
    values.iter().map(|value| reading(*value)).collect()
}

fn texts(values: &[&str]) -> Vec<String> {
    values.iter().map(|value| value.to_string()).collect()
}

fn city(name: &str) -> Input {
    Input { city: name.to_string(), body: None, language: None, channel: None, chat_id: None }
}

#[test]
fn weather_code_table_covers_all_six_conditions() {
    assert_eq!(weather_code_to_condition(0), "sunny");
    assert_eq!(weather_code_to_condition(1), "sunny");
    assert_eq!(weather_code_to_condition(2), "cloudy");
    assert_eq!(weather_code_to_condition(3), "cloudy");
    assert_eq!(weather_code_to_condition(45), "foggy");
    assert_eq!(weather_code_to_condition(48), "foggy");
    assert_eq!(weather_code_to_condition(51), "rainy");
    assert_eq!(weather_code_to_condition(63), "rainy");
    assert_eq!(weather_code_to_condition(82), "rainy");
    assert_eq!(weather_code_to_condition(71), "snowy");
    assert_eq!(weather_code_to_condition(86), "snowy");
    assert_eq!(weather_code_to_condition(95), "stormy");
    assert_eq!(weather_code_to_condition(99), "stormy");
    // An unknown code falls back to sunny rather than failing.
    assert_eq!(weather_code_to_condition(42424), "sunny");
}

#[test]
fn matrix_safe_number_rounds_fractional_values() {
    assert_eq!(matrix_safe_number(reading(23.4)), Value::from(23));
    assert_eq!(matrix_safe_number(reading(23.5)), Value::from(24));
    assert_eq!(matrix_safe_number(reading(-1.6)), Value::from(-2));
}

#[test]
fn percent_encode_handles_ascii_and_non_ascii() {
    assert_eq!(percent_encode("Beijing"), "Beijing");
    assert_eq!(percent_encode("New York"), "New%20York");
    // The name is six bytes of UTF-8.
    let encoded = percent_encode("北京");
    assert_eq!(encoded, "%E5%8C%97%E4%BA%AC");
}

#[test]
fn condition_fallback_text_returns_expected_labels() {
    assert_eq!(condition_fallback_text("sunny"), "sunny");
    assert_eq!(condition_fallback_text("rainy"), "rain");
    assert_eq!(condition_fallback_text("stormy"), "thunderstorm");
    assert_eq!(condition_fallback_text("unknown_enum"), "");
}

#[test]
fn build_initial_state_includes_v2_guidance_fields() {
    let location = GeoLocation {
        latitude: "39.9".to_string(),
        longitude: "116.4".to_string(),
        name: "Beijing".to_string(),
        timezone: Some("Asia/Shanghai".to_string()),
        population: Some(1),
    };
    let weather = WeatherResponse {
        current: Some(CurrentWeather {
            temperature_2m: Some(reading(16.0)),
            relative_humidity_2m: Some(reading(81.0)),
            apparent_temperature: Some(reading(17.0)),
            weather_code: Some(2),
            wind_speed_10m: Some(reading(3.0)),
        }),
        hourly: Some(HourlyWeather {
            time: texts(&["2026-04-16T08:00", "2026-04-16T13:00", "2026-04-16T20:00"]),
            temperature_2m: readings(&[13.0, 24.0, 14.0]),
            weather_code: vec![2, 0, 2],
            precipitation_probability: readings(&[10.0, 0.0, 5.0]),
        }),
        daily: Some(DailyWeather {
            time: texts(&["2026-04-16"]),
            temperature_2m_max: readings(&[24.0]),
            temperature_2m_min: readings(&[12.0]),
            precipitation_probability_max: readings(&[10.0]),
            uv_index_max: readings(&[6.0]),
        }),
    };

    let initial_state =
        build_initial_state(&location, &weather, Some("zh-CN")).expect("state should build");
    assert_eq!(initial_state.get("high_c"), Some(&Value::from(24)));
    assert_eq!(initial_state.get("low_c"), Some(&Value::from(12)));
    assert_eq!(initial_state.get("language"), Some(&Value::from("zh-CN")));
    assert_eq!(
        initial_state.get("precipitation_probability_max"),
        Some(&Value::from(10))
    );
    assert_eq!(initial_state.get("uv_index_max"), Some(&Value::from(6)));

    let periods = initial_state
        .get("periods")
        .and_then(Value::as_array)
        .expect("periods array");
    assert_eq!(periods.len(), 3);
    assert_eq!(periods[0]["slot"], Value::from("morning"));
    assert_eq!(periods[1]["slot"], Value::from("noon"));
    assert_eq!(periods[2]["slot"], Value::from("night"));
}

#[test]
fn build_periods_payload_picks_target_hours_for_each_slot() {
    let hourly = HourlyWeather {
        time: texts(&[
            "2026-04-16T06:00",
            "2026-04-16T08:00",
            "2026-04-16T12:00",
            "2026-04-16T13:00",
            "2026-04-16T20:00",
        ]),
        temperature_2m: readings(&[10.0, 12.0, 22.0, 24.0, 15.0]),
        weather_code: vec![2, 2, 0, 0, 45],
        precipitation_probability: readings(&[5.0, 10.0, 0.0, 0.0, 15.0]),
    };
    let daily = DailyWeather {
        time: texts(&["2026-04-16"]),
        ..Default::default()
    };

    let periods = build_periods_payload(&hourly, &daily);
    assert_eq!(periods.len(), 3);
    assert_eq!(periods[0]["slot"], Value::from("morning"));
    assert_eq!(periods[0]["temp_c"], Value::from(12));
    assert_eq!(periods[1]["slot"], Value::from("noon"));
    assert_eq!(periods[1]["temp_c"], Value::from(24));
    assert_eq!(periods[2]["slot"], Value::from("night"));
    assert_eq!(periods[2]["temp_c"], Value::from(15));
}

#[test]
fn normalize_language_code_maps_supported_aliases() {
    assert_eq!(normalize_language_code("zh"), Some("zh-CN"));
    assert_eq!(normalize_language_code("zh-CN"), Some("zh-CN"));
    assert_eq!(normalize_language_code("en-US"), Some("en"));
    assert_eq!(normalize_language_code("English"), Some("en"));
    assert_eq!(normalize_language_code("fr"), None);
}

#[test]
fn execute_rejects_empty_city() {
    let tool = ShowWeatherCardTool::with_context("matrix", "!room:example.org");
    match tool.begin(city("")) {
        CardStep::Finish(result) => {
            assert!(!result.success);
            assert!(result.output.contains("city"));
        }
        other => panic!("unexpected step {:?}", other),
    }
}

#[test]
fn execute_rejects_missing_context() {
    // No chat is bound, and none is given.
    let tool = ShowWeatherCardTool::new();
    match tool.begin(city("Beijing")) {
        CardStep::Finish(result) => {
            assert!(!result.success);
            assert!(result.output.contains("channel"));
        }
        other => panic!("unexpected step {:?}", other),
    }
}
