//! The state that a weather card starts with.

use crate::clock;
use crate::condition;
use crate::forecast::{DailyWeather, GeoLocation, WeatherResponse};
use crate::json::{self, Json};
use crate::language;
use crate::periods;
use crate::reading::{self, Reading};
use crate::text;
use serde_json::Value;
use vstd::prelude::*;

verus! {

/// Why a forecast makes no card.
#[derive(Clone, Copy, Debug, PartialEq, Eq, Structural)]
pub enum StateError {
    /// The forecast says nothing of the moment.
    NoCurrentWeather,
    /// The forecast has no temperature of the moment.
    NoTemperature,
}

impl StateError {
    /// The reason in words.
    pub open spec fn words(self) -> Seq<char> {
        match self {
            StateError::NoCurrentWeather => "open-meteo returned no current-weather block"@,
            StateError::NoTemperature => "open-meteo returned no temperature"@,
        }
    }

    /// The reason in words.
    pub fn message(self) -> (words: &'static str)
        ensures
            words@ == self.words(),
    {
        match self {
            StateError::NoCurrentWeather => "open-meteo returned no current-weather block",
            StateError::NoTemperature => "open-meteo returned no temperature",
        }
    }
}

/// Why `weather` makes no card, if it does not.
pub open spec fn state_error(weather: &WeatherResponse) -> Option<StateError> {
    match weather.current {
        None => Some(StateError::NoCurrentWeather),
        Some(current) => if current.temperature_2m is None {
            Some(StateError::NoTemperature)
        } else {
            None
        },
    }
}

/// Why `weather` makes no card, if it does not.
pub fn find_state_error(weather: &WeatherResponse) -> (error: Option<StateError>)
    ensures
        error == state_error(weather),
{
    match &weather.current {
        None => Some(StateError::NoCurrentWeather),
        Some(current) => if current.temperature_2m.is_none() {
            Some(StateError::NoTemperature)
        } else {
            None
        },
    }
}

/// The JSON number for a value that may be missing.
pub open spec fn number_model(value: Option<Reading>) -> Option<Json> {
    match value {
        Some(v) => Some(Json::Number(v.as_integer() as int)),
        None => None,
    }
}

/// The JSON text for the language of the card, where it is asked for and known.
pub open spec fn language_model(language: Option<Seq<char>>) -> Option<Json> {
    match language {
        Some(raw) => match language::language_code_of(raw) {
            Some(code) => Some(Json::Text(code)),
            None => None,
        },
        None => None,
    }
}

/// What a card says of the day, under the keys of the day; nothing under any other key.
pub open spec fn day_field(daily: &DailyWeather, key: Seq<char>) -> Option<Json> {
    if key == "high_c"@ {
        reading::first_number_model(daily.temperature_2m_max@)
    } else if key == "low_c"@ {
        reading::first_number_model(daily.temperature_2m_min@)
    } else if key == "precipitation_probability_max"@ {
        reading::first_number_model(daily.precipitation_probability_max@)
    } else if key == "uv_index_max"@ {
        reading::first_number_model(daily.uv_index_max@)
    } else {
        None
    }
}

/// The parts of the day that a card shows, if it shows any.
pub open spec fn periods_field(weather: &WeatherResponse) -> Option<Json> {
    match (weather.daily, weather.hourly) {
        (Some(daily), Some(hourly)) => {
            let shown = periods::periods_model(&hourly, &daily);
            if shown.len() > 0 {
                Some(Json::Array(shown))
            } else {
                None
            }
        },
        _ => None,
    }
}

/// What stands under `key` in the state of a card for `location`, if anything: the place and
/// its weather of the moment, the time `updated_at`, the language, and what the forecast has
/// of the day.
pub open spec fn state_field(
    location: &GeoLocation,
    weather: &WeatherResponse,
    language: Option<Seq<char>>,
    updated_at: Seq<char>,
    key: Seq<char>,
) -> Option<Json> {
    let current = weather.current->Some_0;
    if key == "location"@ {
        Some(Json::Text(location.name@))
    } else if key == "temp_c"@ {
        number_model(current.temperature_2m)
    } else if key == "condition"@ {
        Some(Json::Text(condition::condition_or_sunny(current.weather_code)))
    } else if key == "humidity"@ {
        number_model(current.relative_humidity_2m)
    } else if key == "wind_kph"@ {
        number_model(current.wind_speed_10m)
    } else if key == "feels_like_c"@ {
        number_model(current.apparent_temperature)
    } else if key == "updated_at"@ {
        Some(Json::Text(updated_at))
    } else if key == "language"@ {
        language_model(language)
    } else if key == "periods"@ {
        periods_field(weather)
    } else {
        match weather.daily {
            Some(daily) => day_field(&daily, key),
            None => None,
        }
    }
}

/// The state of a card: each key with what stands under it.
pub open spec fn state_entries(
    location: &GeoLocation,
    weather: &WeatherResponse,
    language: Option<Seq<char>>,
    updated_at: Seq<char>,
) -> Map<Seq<char>, Json> {
    Map::new(
        |key: Seq<char>| state_field(location, weather, language, updated_at, key) is Some,
        |key: Seq<char>| state_field(location, weather, language, updated_at, key)->Some_0,
    )
}

/// The keys of a card's state differ in their lengths or in their first two characters.
pub(crate) proof fn keys_differ()
    ensures
        "location"@.len() == 8 && "location"@[0] == 'l' && "location"@[1] == 'o',
        "temp_c"@.len() == 6 && "temp_c"@[0] == 't',
        "condition"@.len() == 9,
        "humidity"@.len() == 8 && "humidity"@[0] == 'h',
        "wind_kph"@.len() == 8 && "wind_kph"@[0] == 'w',
        "feels_like_c"@.len() == 12 && "feels_like_c"@[0] == 'f',
        "updated_at"@.len() == 10,
        "language"@.len() == 8 && "language"@[0] == 'l' && "language"@[1] == 'a',
        "high_c"@.len() == 6 && "high_c"@[0] == 'h',
        "low_c"@.len() == 5,
        "precipitation_probability_max"@.len() == 29,
        "uv_index_max"@.len() == 12 && "uv_index_max"@[0] == 'u',
        "periods"@.len() == 7,
{
    reveal_strlit("location");
    reveal_strlit("temp_c");
    reveal_strlit("condition");
    reveal_strlit("humidity");
    reveal_strlit("wind_kph");
    reveal_strlit("feels_like_c");
    reveal_strlit("updated_at");
    reveal_strlit("language");
    reveal_strlit("high_c");
    reveal_strlit("low_c");
    reveal_strlit("precipitation_probability_max");
    reveal_strlit("uv_index_max");
    reveal_strlit("periods");
}

/// The JSON number for a value that may be missing.
fn optional_number(value: Option<Reading>) -> (number: Option<Value>)
    ensures
        json::json_of_option(number) == number_model(value),
{
    match value {
        Some(v) => Some(reading::matrix_safe_number(v)),
        None => None,
    }
}

/// The JSON text for the language of the card, where it is asked for and known.
fn optional_language(language: Option<&str>) -> (code: Option<Value>)
    ensures
        json::json_of_option(code) == language_model(text::borrowed(language)),
{
    match language {
        Some(raw) => match language::normalize_language_code(raw) {
            Some(code) => Some(json::text(code)),
            None => None,
        },
        None => None,
    }
}

/// The JSON array of the parts of the day that a card shows, if it shows any.
fn optional_periods(weather: &WeatherResponse) -> (shown: Option<Value>)
    ensures
        json::json_of_option(shown) == periods_field(weather),
{
    match (&weather.daily, &weather.hourly) {
        (Some(daily), Some(hourly)) => {
            let shown = periods::build_periods_payload(hourly, daily);
            assert(json::json_of_each(shown@).len() == shown@.len());
            if shown.len() > 0 {
                Some(json::array(shown))
            } else {
                None
            }
        },
        _ => None,
    }
}

/// Builds the state of a card for `location`, as of the time `updated_at`.
pub fn build_initial_state_at(
    location: &GeoLocation,
    weather: &WeatherResponse,
    language: Option<&str>,
    updated_at: &str,
) -> (state: Result<serde_json::Map<String, Value>, StateError>)
    ensures
        match state {
            Ok(entries) => state_error(weather) is None && json::entries_of(entries)
                == state_entries(location, weather, text::borrowed(language), updated_at@),
            Err(error) => state_error(weather) == Some(error),
        },
{
    let current = match &weather.current {
        Some(current) => current,
        None => return Err(StateError::NoCurrentWeather),
    };
    let temperature = match current.temperature_2m {
        Some(temperature) => temperature,
        None => return Err(StateError::NoTemperature),
    };
    let condition = condition::condition_for(current.weather_code);
    let mut state = serde_json::Map::new();
    state.insert("location".to_string(), json::text(location.name.as_str()));
    state.insert("temp_c".to_string(), reading::matrix_safe_number(temperature));
    state.insert("condition".to_string(), json::text(condition));
    json::insert_some(&mut state, "humidity", optional_number(current.relative_humidity_2m));
    json::insert_some(&mut state, "wind_kph", optional_number(current.wind_speed_10m));
    json::insert_some(&mut state, "feels_like_c", optional_number(current.apparent_temperature));
    state.insert("updated_at".to_string(), json::text(updated_at));
    json::insert_some(&mut state, "language", optional_language(language));
    if let Some(daily) = &weather.daily {
        let high = reading::first_number(&daily.temperature_2m_max);
        let low = reading::first_number(&daily.temperature_2m_min);
        let rain = reading::first_number(&daily.precipitation_probability_max);
        let uv = reading::first_number(&daily.uv_index_max);
        json::insert_some(&mut state, "high_c", high);
        json::insert_some(&mut state, "low_c", low);
        json::insert_some(&mut state, "precipitation_probability_max", rain);
        json::insert_some(&mut state, "uv_index_max", uv);
        json::insert_some(&mut state, "periods", optional_periods(weather));
    }
    proof {
        keys_differ();
        assert(json::entries_of(state) =~= state_entries(
            location,
            weather,
            text::borrowed(language),
            updated_at@,
        ));
    }
    Ok(state)
}

/// Builds the state of a card for `location`, as of now. The clock is read only where the
/// forecast makes a card.
pub fn build_initial_state(
    location: &GeoLocation,
    weather: &WeatherResponse,
    language: Option<&str>,
) -> (state: Result<serde_json::Map<String, Value>, StateError>)
    ensures
        match state {
            Ok(entries) => state_error(weather) is None && exists|now: Seq<char>| #[trigger]
                clock::stamped_in_utc(now) && json::entries_of(entries) == state_entries(
                    location,
                    weather,
                    text::borrowed(language),
                    now,
                ),
            Err(error) => state_error(weather) == Some(error),
        },
{
    if let Some(error) = find_state_error(weather) {
        return Err(error);
    }
    let now = clock::current_time();
    build_initial_state_at(location, weather, language, now.as_str())
}

/// The state of a card, at any depth, holds no number but integers of 64 bits.
pub proof fn state_is_canonical(
    location: &GeoLocation,
    weather: &WeatherResponse,
    language: Option<Seq<char>>,
    updated_at: Seq<char>,
)
    ensures
        json::canonical(Json::Object(state_entries(location, weather, language, updated_at))),
{
    let entries = state_entries(location, weather, language, updated_at);
    assert forall|key: Seq<char>| entries.contains_key(key) implies json::canonical(
        #[trigger] entries[key],
    ) by {
        if key == "periods"@ {
            periods_are_canonical(weather);
        }
    }
}

/// What a card says of the parts of the day holds no number but integers of 64 bits.
proof fn periods_are_canonical(weather: &WeatherResponse)
    ensures
        periods_field(weather) matches Some(shown) ==> json::canonical(shown),
{
    if let (Some(daily), Some(hourly)) = (weather.daily, weather.hourly) {
        let shown = periods::periods_model(&hourly, &daily);
        periods::periods_are_canonical(&hourly, &daily);
        assert(json::canonical(Json::Array(shown)));
    }
}

/// Whatever the forecast leaves out, a card names its place, its temperature, one of the six
/// conditions and the time of its data.
pub proof fn state_has_the_essentials(
    location: &GeoLocation,
    weather: &WeatherResponse,
    language: Option<Seq<char>>,
    updated_at: Seq<char>,
)
    requires
        state_error(weather) is None,
    ensures
        ({
            let entries = state_entries(location, weather, language, updated_at);
            &&& entries.contains_key("location"@)
            &&& entries["location"@] == Json::Text(location.name@)
            &&& entries.contains_key("temp_c"@)
            &&& entries["temp_c"@] == Json::Number(
                weather.current->Some_0.temperature_2m->Some_0.as_integer() as int,
            )
            &&& entries.contains_key("condition"@)
            &&& entries["condition"@] == Json::Text(
                condition::condition_or_sunny(weather.current->Some_0.weather_code),
            )
            &&& condition::is_condition(entries["condition"@]->Text_0)
            &&& entries.contains_key("updated_at"@)
            &&& entries["updated_at"@] == Json::Text(updated_at)
        }),
{
    keys_differ();
    condition::codes_cover_the_six_conditions();
}

/// The language that is asked for shows in the entry of the language alone: everything else
/// comes from the place, its forecast and the time.
pub proof fn state_depends_on_language_in_one_entry(
    location: &GeoLocation,
    weather: &WeatherResponse,
    language: Option<Seq<char>>,
    other: Option<Seq<char>>,
    updated_at: Seq<char>,
)
    ensures
        state_entries(location, weather, language, updated_at).remove("language"@)
            == state_entries(location, weather, other, updated_at).remove("language"@),
{
    keys_differ();
    assert(state_entries(location, weather, language, updated_at).remove("language"@)
        =~= state_entries(location, weather, other, updated_at).remove("language"@));
}

/// A card built later from the same forecast differs in the time of its data alone.
pub proof fn state_depends_on_time_in_one_entry(
    location: &GeoLocation,
    weather: &WeatherResponse,
    language: Option<Seq<char>>,
    earlier: Seq<char>,
    later: Seq<char>,
)
    ensures
        state_entries(location, weather, language, later) == state_entries(
            location,
            weather,
            language,
            earlier,
        ).insert("updated_at"@, Json::Text(later)),
{
    keys_differ();
    assert(state_entries(location, weather, language, later) =~= state_entries(
        location,
        weather,
        language,
        earlier,
    ).insert("updated_at"@, Json::Text(later)));
}

} // verus!
