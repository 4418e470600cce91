use serde_json::Value;
use show_weather_card::forecast::{
    CurrentWeather, DailyWeather, GeoLocation, HourlyWeather, WeatherResponse,
};
use show_weather_card::geocode::{take_most_populated, GeocodeSearch, SearchReply, SearchStep};
use show_weather_card::message::{compose_body, OutboundMessage};
use show_weather_card::periods::{build_periods_payload, pick_period_payload};
use show_weather_card::reading::Reading;
use show_weather_card::run::{finish_send, CardStep, Fetching, ForecastReply, SendReply, ToolResult};
use show_weather_card::state::{
    build_initial_state, build_initial_state_at, find_state_error, StateError,
};
use show_weather_card::tool::{Input, ShowWeatherCardTool};

fn reading(value: f64) -> Reading {
    Reading { bits: value.to_bits() }
}

fn readings(values: &[f64]) -> Vec<Reading> {
    values.iter().map(|value| reading(*value)).collect()
}

fn texts(values: &[&str]) -> Vec<String> {
    values.iter().map(|value| value.to_string()).collect()
}

fn place(name: &str, population: Option<u64>) -> GeoLocation {
    GeoLocation {
        latitude: "39.9".to_string(),
        longitude: "116.4".to_string(),
        name: name.to_string(),
        timezone: None,
        population,
    }
}

fn current(temperature: Option<f64>, code: Option<u32>) -> CurrentWeather {
    CurrentWeather {
        temperature_2m: temperature.map(reading),
        relative_humidity_2m: None,
        apparent_temperature: None,
        weather_code: code,
        wind_speed_10m: None,
    }
}

fn weather(current: Option<CurrentWeather>) -> WeatherResponse {
    WeatherResponse { current, hourly: None, daily: None }
}

fn input(city: &str) -> Input {
    Input { city: city.to_string(), body: None, language: None, channel: None, chat_id: None }
}

fn tool() -> ShowWeatherCardTool {
    ShowWeatherCardTool::with_context("matrix", "!room:example.org")
}

fn finished(step: CardStep) -> ToolResult {
    match step {
        CardStep::Finish(result) => result,
        other => panic!("unexpected step {:?}", other),
    }
}

fn fetching(input: Input, place: GeoLocation) -> Fetching {
    match tool().begin(input) {
        CardStep::Search(search) => {
            match search.advance(SearchReply::Answered(Some(vec![place]))) {
                CardStep::Fetch(run) => run,
                other => panic!("unexpected step {:?}", other),
            }
        }
        other => panic!("unexpected step {:?}", other),
    }
}

fn sent(step: CardStep) -> OutboundMessage {
    match step {
        CardStep::Send(message) => message,
        other => panic!("unexpected step {:?}", other),
    }
}

#[test]
fn a_run_from_the_city_to_the_card() {
    let search = match tool().begin(input("Beijing")) {
        CardStep::Search(search) => search,
        other => panic!("unexpected step {:?}", other),
    };
    assert_eq!(
        search.url(),
        "https://geocoding-api.open-meteo.com/v1/search?name=Beijing&count=5"
    );
    let found = vec![place("Beijing Hamlet", None), place("Beijing", Some(18960744))];
    let run = match search.advance(SearchReply::Answered(Some(found))) {
        CardStep::Fetch(run) => run,
        other => panic!("unexpected step {:?}", other),
    };
    assert!(run.url().starts_with(
        "https://api.open-meteo.com/v1/forecast?latitude=39.9&longitude=116.4&current="
    ));
    assert!(run.url().ends_with("&forecast_days=1&timezone=auto"));
    let reply = ForecastReply::Received(weather(Some(current(Some(21.96), Some(63)))));
    let message = sent(run.advance_at(reply, "2026-04-16T08:00:00+00:00"));
    assert_eq!(message.channel, "matrix");
    assert_eq!(message.chat_id, "!room:example.org");
    assert_eq!(message.content, "Beijing 22.0°C rain");
    assert_eq!(message.reply_to, None);
    assert!(message.media.is_empty());
    let app = &message.metadata["org.octos.app"];
    assert_eq!(message.metadata.as_object().unwrap().len(), 1);
    assert_eq!(app["type"], Value::from("weather"));
    assert_eq!(app["version"], Value::from(2));
    assert_eq!(app.as_object().unwrap().len(), 3);
    let state = app["initial_state"].as_object().unwrap();
    assert_eq!(state.len(), 4);
    assert_eq!(state["location"], Value::from("Beijing"));
    assert_eq!(state["temp_c"], Value::from(22));
    assert_eq!(state["condition"], Value::from("rainy"));
    assert_eq!(state["updated_at"], Value::from("2026-04-16T08:00:00+00:00"));

    let result = finished(finish_send(SendReply::Sent));
    assert!(result.success);
    assert_eq!(result.output, "");
}

#[test]
fn the_card_goes_where_the_input_says() {
    let mut wanted = input("Beijing");
    wanted.channel = Some("telegram".to_string());
    wanted.chat_id = Some("42".to_string());
    wanted.body = Some("Today in Beijing".to_string());
    wanted.language = Some(" English ".to_string());
    let run = fetching(wanted, place("Beijing", None));
    let reply = ForecastReply::Received(weather(Some(current(Some(21.96), None))));
    let message = sent(run.advance(reply));
    assert_eq!(message.channel, "telegram");
    assert_eq!(message.chat_id, "42");
    assert_eq!(message.content, "Today in Beijing");
    let state = &message.metadata["org.octos.app"]["initial_state"];
    assert_eq!(state["language"], Value::from("en"));
    assert_eq!(state["condition"], Value::from("sunny"));
}

#[test]
fn the_time_of_a_card_is_the_time_of_the_call() {
    let run = fetching(input("Beijing"), place("Beijing", None));
    let before = chrono::Utc::now();
    let reply = ForecastReply::Received(weather(Some(current(Some(1.0), None))));
    let message = sent(run.advance(reply));
    let after = chrono::Utc::now();
    let stamp = message.metadata["org.octos.app"]["initial_state"]["updated_at"]
        .as_str()
        .unwrap()
        .to_string();
    let head = stamp.strip_suffix("+00:00").unwrap();
    let (seconds, fraction) = head.split_at(19);
    let shape: String = seconds
        .chars()
        .map(|c| if c.is_ascii_digit() { '0' } else { c })
        .collect();
    assert_eq!(shape, "0000-00-00T00:00:00");
    assert!([0, 4, 7, 10].contains(&fraction.len()));
    assert!(fraction.is_empty() || fraction[1..].bytes().all(|b| b.is_ascii_digit()));
    assert!(fraction.is_empty() || fraction.starts_with('.'));
    let time = chrono::DateTime::parse_from_rfc3339(&stamp).unwrap();
    assert!(before <= time && time <= after);
}

#[test]
fn a_later_card_differs_in_its_time_alone() {
    let here = place("Beijing", None);
    let forecast = weather(Some(current(Some(1.0), Some(3))));
    let earlier = build_initial_state_at(&here, &forecast, None, "earlier").unwrap();
    let mut later = build_initial_state_at(&here, &forecast, None, "later").unwrap();
    assert_ne!(earlier, later);
    later.insert("updated_at".to_string(), Value::from("earlier"));
    assert_eq!(earlier, later);
}

#[test]
fn the_language_shows_in_one_entry() {
    let here = place("Beijing", None);
    let forecast = weather(Some(current(Some(1.0), Some(3))));
    let plain = build_initial_state_at(&here, &forecast, None, "now").unwrap();
    let mut chinese = build_initial_state_at(&here, &forecast, Some("zh"), "now").unwrap();
    assert_eq!(chinese.remove("language"), Some(Value::from("zh-CN")));
    assert_eq!(plain, chinese);
}

#[test]
fn a_run_needs_a_channel_and_a_chat() {
    let refusal = "Error: No target channel/chat specified.";
    let unbound = ShowWeatherCardTool::new();
    assert_eq!(finished(unbound.begin(input("Beijing"))).output, refusal);
    let no_chat = ShowWeatherCardTool::with_context("matrix", "");
    assert_eq!(finished(no_chat.begin(input("Beijing"))).output, refusal);
    // The chat is missed before the city is.
    assert_eq!(finished(no_chat.begin(input(""))).output, refusal);
    let mut emptied = input("Beijing");
    emptied.channel = Some(String::new());
    assert_eq!(finished(tool().begin(emptied)).output, refusal);
    let mut named = input("Beijing");
    named.channel = Some("matrix".to_string());
    named.chat_id = Some("!room:example.org".to_string());
    assert!(matches!(unbound.begin(named), CardStep::Search(_)));
}

#[test]
fn the_default_chat_can_be_set() {
    let mut bound = ShowWeatherCardTool::new();
    bound.set_context("matrix", "!room:example.org");
    match bound.begin(input("Beijing")) {
        CardStep::Search(run) => {
            assert_eq!(run.order.channel, "matrix");
            assert_eq!(run.order.chat_id, "!room:example.org");
        }
        other => panic!("unexpected step {:?}", other),
    }
}

#[test]
fn a_blank_city_is_refused() {
    for city in ["", "  ", "\t\n", "\u{3000}"] {
        let result = finished(tool().begin(input(city)));
        assert!(!result.success);
        assert_eq!(result.output, "Error: `city` must not be empty.");
    }
}

#[test]
fn a_city_of_ascii_characters_is_searched_once() {
    let search = match tool().begin(input("Nowhere")) {
        CardStep::Search(search) => search,
        other => panic!("unexpected step {:?}", other),
    };
    let result = finished(search.advance(SearchReply::Answered(Some(Vec::new()))));
    assert!(!result.success);
    assert_eq!(
        result.output,
        "Error: Could not find city 'Nowhere': no results from open-meteo geocoding. \
         Try a more specific or English city name."
    );
}

#[test]
fn a_failed_search_says_why() {
    let search = match tool().begin(input("Nowhere")) {
        CardStep::Search(search) => search,
        other => panic!("unexpected step {:?}", other),
    };
    let result = finished(search.advance(SearchReply::Failed("timed out".to_string())));
    assert_eq!(
        result.output,
        "Error: Could not find city 'Nowhere': no results from open-meteo geocoding: timed out. \
         Try a more specific or English city name."
    );
}

#[test]
fn other_cities_are_searched_in_more_languages() {
    let mut search = GeocodeSearch::start("北京".to_string());
    assert_eq!(search.city(), "北京");
    let plain = "https://geocoding-api.open-meteo.com/v1/search?name=%E5%8C%97%E4%BA%AC&count=5";
    assert_eq!(search.url(), plain);
    let replies = [
        ("zh", SearchReply::Failed("first".to_string())),
        ("ja", SearchReply::Answered(None)),
        ("ko", SearchReply::Failed("second".to_string())),
        ("ru", SearchReply::Answered(Some(Vec::new()))),
        ("ar", SearchReply::Answered(None)),
        ("hi", SearchReply::Answered(None)),
    ];
    for (lang, reply) in replies {
        search = match search.advance(reply) {
            SearchStep::Again(next) => next,
            other => panic!("unexpected step {:?}", other),
        };
        assert_eq!(search.url(), format!("{}&language={}", plain, lang));
    }
    match search.advance(SearchReply::Answered(None)) {
        SearchStep::Exhausted(reason) => {
            assert_eq!(reason, "no results from open-meteo geocoding: second");
        }
        other => panic!("unexpected step {:?}", other),
    }
}

#[test]
fn a_place_may_be_found_in_another_language() {
    let search = GeocodeSearch::start("北京".to_string());
    let search = match search.advance(SearchReply::Failed("timed out".to_string())) {
        SearchStep::Again(next) => next,
        other => panic!("unexpected step {:?}", other),
    };
    match search.advance(SearchReply::Answered(Some(vec![place("Beijing", None)]))) {
        SearchStep::Found(found) => assert_eq!(found.name, "Beijing"),
        other => panic!("unexpected step {:?}", other),
    }
}

#[test]
fn the_first_of_the_most_populated_places_is_taken() {
    let places = vec![
        place("none", None),
        place("few", Some(3)),
        place("many", Some(900)),
        place("as many", Some(900)),
        place("some", Some(10)),
    ];
    assert_eq!(take_most_populated(places).name, "many");
    let unknown = vec![place("first", None), place("second", Some(0))];
    assert_eq!(take_most_populated(unknown).name, "first");
    assert_eq!(take_most_populated(vec![place("only", None)]).name, "only");
}

#[test]
fn a_forecast_that_is_not_to_be_had_ends_the_run() {
    let cases = [
        (ForecastReply::Unreachable, "Error: Weather fetch for Beijing failed: weather request failed"),
        (
            ForecastReply::Unreadable,
            "Error: Weather fetch for Beijing failed: weather response parse failed",
        ),
        (
            ForecastReply::Received(weather(None)),
            "Error: Weather fetch for Beijing failed: open-meteo returned no current-weather block",
        ),
        (
            ForecastReply::Received(weather(Some(current(None, Some(0))))),
            "Error: Weather payload build for Beijing failed: open-meteo returned no temperature",
        ),
    ];
    for (reply, words) in cases {
        let result = finished(fetching(input("Beijing"), place("Beijing", None)).advance(reply));
        assert!(!result.success);
        assert_eq!(result.output, words);
        assert!(result.output.starts_with("Error: "));
    }
}

#[test]
fn a_card_that_cannot_be_sent_fails_the_run() {
    match finish_send(SendReply::Failed("channel closed".to_string())) {
        CardStep::Fail(reason) => {
            assert_eq!(reason, "failed to send weather card message: channel closed");
        }
        other => panic!("unexpected step {:?}", other),
    }
}

#[test]
fn forecasts_that_make_no_state() {
    let here = place("Beijing", None);
    assert_eq!(
        build_initial_state(&here, &weather(None), None),
        Err(StateError::NoCurrentWeather)
    );
    assert_eq!(
        build_initial_state(&here, &weather(Some(current(None, None))), None),
        Err(StateError::NoTemperature)
    );
    assert_eq!(find_state_error(&weather(None)), Some(StateError::NoCurrentWeather));
    assert_eq!(
        find_state_error(&weather(Some(current(None, Some(0))))),
        Some(StateError::NoTemperature)
    );
    assert_eq!(find_state_error(&weather(Some(current(Some(0.0), None)))), None);
    assert_eq!(
        StateError::NoCurrentWeather.message(),
        "open-meteo returned no current-weather block"
    );
    assert_eq!(StateError::NoTemperature.message(), "open-meteo returned no temperature");
}

#[test]
fn a_full_state_holds_integers() {
    let forecast = WeatherResponse {
        current: Some(CurrentWeather {
            temperature_2m: Some(reading(16.5)),
            relative_humidity_2m: Some(reading(80.7)),
            apparent_temperature: Some(reading(-0.5)),
            weather_code: Some(95),
            wind_speed_10m: Some(reading(3.2)),
        }),
        hourly: Some(HourlyWeather {
            time: texts(&["2026-04-16T09:00"]),
            temperature_2m: readings(&[13.5]),
            weather_code: vec![48],
            precipitation_probability: readings(&[10.5]),
        }),
        daily: Some(DailyWeather {
            time: texts(&["2026-04-16"]),
            temperature_2m_max: readings(&[24.5]),
            temperature_2m_min: readings(&[-12.5]),
            precipitation_probability_max: readings(&[10.4]),
            uv_index_max: readings(&[6.6]),
        }),
    };
    let state =
        build_initial_state_at(&place("Beijing", None), &forecast, Some("fr"), "now").unwrap();
    assert_eq!(state.len(), 12);
    for (key, value) in [
        ("temp_c", 17),
        ("humidity", 81),
        ("feels_like_c", -1),
        ("wind_kph", 3),
        ("high_c", 25),
        ("low_c", -13),
        ("precipitation_probability_max", 10),
        ("uv_index_max", 7),
    ] {
        assert_eq!(state[key], Value::from(value), "{}", key);
        assert!(state[key].is_i64());
    }
    assert_eq!(state["condition"], Value::from("stormy"));
    assert_eq!(state.get("language"), None);
    let periods = state["periods"].as_array().unwrap();
    assert_eq!(periods.len(), 3);
    for period in periods {
        assert_eq!(period["temp_c"], Value::from(14));
        assert_eq!(period["condition"], Value::from("foggy"));
        assert_eq!(period["precipitation_probability"], Value::from(11));
    }
}

#[test]
fn parts_of_the_day_need_hours_of_that_day() {
    let daily = DailyWeather { time: texts(&["2026-04-16"]), ..Default::default() };
    let hourly = HourlyWeather {
        time: texts(&["2026-04-15T08:00", "2026-04-16 without an hour"]),
        temperature_2m: readings(&[1.0, 2.0]),
        ..Default::default()
    };
    assert!(build_periods_payload(&hourly, &daily).is_empty());
    assert!(build_periods_payload(&hourly, &DailyWeather::default()).is_empty());
    assert!(build_periods_payload(&HourlyWeather::default(), &daily).is_empty());

    let forecast = WeatherResponse {
        current: Some(current(Some(1.0), None)),
        hourly: Some(hourly),
        daily: Some(daily),
    };
    let state = build_initial_state_at(&place("Beijing", None), &forecast, None, "now").unwrap();
    assert_eq!(state.get("periods"), None);
    assert_eq!(state.get("high_c"), None);
}

#[test]
fn the_first_of_equally_near_hours_is_shown() {
    let hourly = HourlyWeather {
        time: texts(&["2026-04-16T07:00", "2026-04-16T09:00", "2026-04-15T08:00"]),
        temperature_2m: readings(&[7.0, 9.0, 8.0]),
        weather_code: vec![],
        precipitation_probability: vec![],
    };
    let morning = pick_period_payload(&hourly, "2026-04-16", "morning", 8).unwrap();
    assert_eq!(morning["temp_c"], Value::from(7));
    assert_eq!(morning["condition"], Value::from("sunny"));
    assert_eq!(morning.get("precipitation_probability"), None);
    assert_eq!(morning.as_object().unwrap().len(), 3);
    let night = pick_period_payload(&hourly, "2026-04-16", "night", 20).unwrap();
    assert_eq!(night["temp_c"], Value::from(9));
}

#[test]
fn a_farther_hour_changes_no_pick() {
    let mut hourly = HourlyWeather {
        time: texts(&["2026-04-16T07:00"]),
        temperature_2m: readings(&[7.0]),
        weather_code: vec![],
        precipitation_probability: vec![],
    };
    let before = pick_period_payload(&hourly, "2026-04-16", "morning", 8);
    // As near, farther, and on another day.
    for time in ["2026-04-16T09:00", "2026-04-16T12:00", "2026-04-17T08:00"] {
        hourly.time.push(time.to_string());
        hourly.temperature_2m.push(reading(30.0));
        assert_eq!(pick_period_payload(&hourly, "2026-04-16", "morning", 8), before);
    }
    hourly.time.push("2026-04-16T08:00".to_string());
    hourly.temperature_2m.push(reading(30.0));
    assert_ne!(pick_period_payload(&hourly, "2026-04-16", "morning", 8), before);
}

#[test]
fn an_hour_without_a_temperature_is_not_shown() {
    let hourly = HourlyWeather {
        time: texts(&["2026-04-16T06:00", "2026-04-16T08:00"]),
        temperature_2m: readings(&[6.0]),
        weather_code: vec![0, 0],
        precipitation_probability: vec![],
    };
    // The nearest hour decides, though a farther one has a temperature.
    assert_eq!(pick_period_payload(&hourly, "2026-04-16", "morning", 8), None);
    assert!(pick_period_payload(&hourly, "2026-04-16", "dawn", 5).is_some());
}

#[test]
fn one_line_texts() {
    assert_eq!(compose_body("Oslo", reading(-3.25), "snowy"), "Oslo -3.2°C snow");
    assert_eq!(compose_body("Rome", reading(30.0), "sunny"), "Rome 30.0°C sunny");
    assert_eq!(compose_body("Rome", reading(30.0), "hail"), "Rome 30.0°C ");
}

#[test]
fn what_the_tool_says_of_itself() {
    let tool = tool();
    assert_eq!(tool.name(), "show_weather_card");
    assert_eq!(tool.tags(), ["gateway", "app_reply"]);
    assert!(tool.description().starts_with("Show a native GPU-rendered weather card for a city."));
    let schema = tool.input_schema();
    assert_eq!(schema["type"], Value::from("object"));
    assert_eq!(schema["required"], Value::from(vec!["city"]));
    let properties = schema["properties"].as_object().unwrap();
    assert_eq!(properties.len(), 5);
    for key in ["city", "body", "language", "channel", "chat_id"] {
        assert_eq!(properties[key]["type"], Value::from("string"));
        assert!(properties[key]["description"].is_string());
    }
    assert_eq!(
        properties["channel"]["description"],
        Value::from("Target channel. Defaults to current.")
    );
}
