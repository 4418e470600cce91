//! Laws of the state of a card and of the message that carries it.

use crate::condition;
use crate::decimal;
use crate::forecast::{CurrentWeather, GeoLocation, WeatherResponse};
use crate::json::{self, Json};
use crate::language;
use crate::laws::readings;
use crate::message::{self, CardOrder, OrderModel, OutboundMessage};
use crate::periods;
use crate::reading::Reading;
use crate::state::{self, StateError};
use vstd::prelude::*;

verus! {

/// A forecast makes a card exactly where it has the weather of the moment with a temperature;
/// what is missing first is named.
pub proof fn forecasts_make_cards_so(weather: &WeatherResponse)
    ensures
        weather.current is None ==> state::state_error(weather) == Some(
            StateError::NoCurrentWeather,
        ),
        weather.current matches Some(current) ==> {
            &&& current.temperature_2m is None ==> state::state_error(weather) == Some(
                StateError::NoTemperature,
            )
            &&& current.temperature_2m is Some ==> state::state_error(weather) is None
        },
        StateError::NoCurrentWeather.words() == "open-meteo returned no current-weather block"@,
        StateError::NoTemperature.words() == "open-meteo returned no temperature"@,
{
}

/// Each entry of a card's state about the moment comes from its own field of the forecast, and
/// from nothing else: it is there exactly where the field is, and is the field's reading as an
/// integer.
pub proof fn the_moment_is_told_field_by_field(
    location: &GeoLocation,
    weather: &WeatherResponse,
    language: Option<Seq<char>>,
    updated_at: Seq<char>,
)
    requires
        weather.current is Some,
        weather.current->Some_0.temperature_2m is Some,
    ensures
        ({
            let current = weather.current->Some_0;
            let entries = state::state_entries(location, weather, language, updated_at);
            &&& entries.contains_key("location"@)
            &&& entries["location"@] == Json::Text(location.name@)
            &&& entries.contains_key("updated_at"@)
            &&& entries["updated_at"@] == Json::Text(updated_at)
            &&& entries.contains_key("temp_c"@)
            &&& entries["temp_c"@] == Json::Number(
                current.temperature_2m->Some_0.as_integer() as int,
            )
            &&& entries.contains_key("condition"@)
            &&& match current.weather_code {
                Some(code) => entries["condition"@] == Json::Text(condition::condition_of(code)),
                None => entries["condition"@] == Json::Text("sunny"@),
            }
            &&& match current.apparent_temperature {
                Some(felt) => entries.contains_key("feels_like_c"@) && entries["feels_like_c"@]
                    == Json::Number(felt.as_integer() as int),
                None => !entries.contains_key("feels_like_c"@),
            }
            &&& match current.relative_humidity_2m {
                Some(percent) => entries.contains_key("humidity"@) && entries["humidity"@]
                    == Json::Number(percent.as_integer() as int),
                None => !entries.contains_key("humidity"@),
            }
            &&& match current.wind_speed_10m {
                Some(speed) => entries.contains_key("wind_kph"@) && entries["wind_kph"@]
                    == Json::Number(speed.as_integer() as int),
                None => !entries.contains_key("wind_kph"@),
            }
        }),
{
    state::keys_differ();
}

/// The language entry of a card's state is there exactly where a language is asked for that
/// cards are written in, and is the code of that language.
pub proof fn the_language_is_told_where_it_is_known(
    location: &GeoLocation,
    weather: &WeatherResponse,
    language: Option<Seq<char>>,
    updated_at: Seq<char>,
)
    ensures
        ({
            let entries = state::state_entries(location, weather, language, updated_at);
            &&& language is None ==> !entries.contains_key("language"@)
            &&& language matches Some(raw) ==> {
                &&& entries.contains_key("language"@) <==> language::language_code_of(raw) is Some
                &&& language::language_code_of(raw) matches Some(code)
                    ==> entries["language"@] == Json::Text(code)
            }
        }),
{
    state::keys_differ();
}

/// Each entry of a card's state about the day comes from the first element of its own list of
/// the forecast: it is there exactly where the list has one. The parts of the day are there
/// exactly where there are any.
pub proof fn the_day_is_told_list_by_list(
    location: &GeoLocation,
    weather: &WeatherResponse,
    language: Option<Seq<char>>,
    updated_at: Seq<char>,
)
    ensures
        ({
            let entries = state::state_entries(location, weather, language, updated_at);
            match weather.daily {
                Some(daily) => {
                    &&& entries.contains_key("high_c"@) <==> daily.temperature_2m_max@.len() > 0
                    &&& daily.temperature_2m_max@.len() > 0 ==> entries["high_c"@] == Json::Number(
                        daily.temperature_2m_max@[0].as_integer() as int,
                    )
                    &&& entries.contains_key("low_c"@) <==> daily.temperature_2m_min@.len() > 0
                    &&& daily.temperature_2m_min@.len() > 0 ==> entries["low_c"@] == Json::Number(
                        daily.temperature_2m_min@[0].as_integer() as int,
                    )
                    &&& entries.contains_key("precipitation_probability_max"@)
                        <==> daily.precipitation_probability_max@.len() > 0
                    &&& daily.precipitation_probability_max@.len() > 0
                        ==> entries["precipitation_probability_max"@] == Json::Number(
                        daily.precipitation_probability_max@[0].as_integer() as int,
                    )
                    &&& entries.contains_key("uv_index_max"@) <==> daily.uv_index_max@.len() > 0
                    &&& daily.uv_index_max@.len() > 0 ==> entries["uv_index_max"@] == Json::Number(
                        daily.uv_index_max@[0].as_integer() as int,
                    )
                },
                None => {
                    &&& !entries.contains_key("high_c"@)
                    &&& !entries.contains_key("low_c"@)
                    &&& !entries.contains_key("precipitation_probability_max"@)
                    &&& !entries.contains_key("uv_index_max"@)
                },
            }
        }),
        ({
            let entries = state::state_entries(location, weather, language, updated_at);
            match (weather.daily, weather.hourly) {
                (Some(daily), Some(hourly)) => {
                    let shown = periods::periods_model(&hourly, &daily);
                    &&& entries.contains_key("periods"@) <==> shown.len() > 0
                    &&& shown.len() > 0 ==> entries["periods"@] == Json::Array(shown)
                },
                _ => !entries.contains_key("periods"@),
            }
        }),
{
    state::keys_differ();
}

/// A card's state has these keys and no others.
pub proof fn the_state_has_no_other_keys(
    location: &GeoLocation,
    weather: &WeatherResponse,
    language: Option<Seq<char>>,
    updated_at: Seq<char>,
    key: Seq<char>,
)
    requires
        state::state_entries(location, weather, language, updated_at).contains_key(key),
    ensures
        key == "location"@ || key == "temp_c"@ || key == "condition"@ || key == "humidity"@ || key
            == "wind_kph"@ || key == "feels_like_c"@ || key == "updated_at"@ || key == "language"@
            || key == "high_c"@ || key == "low_c"@ || key == "precipitation_probability_max"@ || key
            == "uv_index_max"@ || key == "periods"@,
{
}

/// Two forecasts that differ in nothing but how warm it feels make states that differ in
/// nothing but the entry for it; and the states do differ where the two readings have different
/// integers.
pub proof fn how_warm_it_feels_shows_in_one_entry(
    location: &GeoLocation,
    weather: &WeatherResponse,
    other: &WeatherResponse,
    language: Option<Seq<char>>,
    updated_at: Seq<char>,
    felt: Reading,
    otherwise: Reading,
)
    requires
        weather.current is Some,
        weather.current->Some_0.temperature_2m is Some,
        weather.current->Some_0.apparent_temperature == Some(felt),
        *other == (WeatherResponse {
            current: Some(
                CurrentWeather {
                    apparent_temperature: Some(otherwise),
                    ..weather.current->Some_0
                },
            ),
            ..*weather
        }),
    ensures
        ({
            let entries = state::state_entries(location, weather, language, updated_at);
            let others = state::state_entries(location, other, language, updated_at);
            &&& entries.remove("feels_like_c"@) == others.remove("feels_like_c"@)
            &&& entries == others <==> felt.as_integer() == otherwise.as_integer()
        }),
{
    state::keys_differ();
    let entries = state::state_entries(location, weather, language, updated_at);
    let others = state::state_entries(location, other, language, updated_at);
    assert(entries.remove("feels_like_c"@) =~= others.remove("feels_like_c"@));
    assert(entries["feels_like_c"@] == Json::Number(felt.as_integer() as int));
    assert(others["feels_like_c"@] == Json::Number(otherwise.as_integer() as int));
    if felt.as_integer() == otherwise.as_integer() {
        assert(entries =~= others);
    }
}

/// Two forecasts that differ in nothing but how warm it feels, and differ there by a degree or
/// more, make different states.
pub proof fn a_degree_more_shows(
    location: &GeoLocation,
    weather: &WeatherResponse,
    other: &WeatherResponse,
    language: Option<Seq<char>>,
    updated_at: Seq<char>,
    felt: Reading,
    warmer: Reading,
)
    requires
        weather.current is Some,
        weather.current->Some_0.temperature_2m is Some,
        weather.current->Some_0.apparent_temperature == Some(felt),
        *other == (WeatherResponse {
            current: Some(
                CurrentWeather {
                    apparent_temperature: Some(warmer),
                    ..weather.current->Some_0
                },
            ),
            ..*weather
        }),
        felt.is_finite() && warmer.is_finite(),
        felt.scale() < 0 && warmer.scale() < 0,
        readings::a_unit_apart(felt, warmer),
    ensures
        state::state_entries(location, weather, language, updated_at) != state::state_entries(
            location,
            other,
            language,
            updated_at,
        ),
{
    readings::a_unit_apart_means_different_integers(felt, warmer);
    how_warm_it_feels_shows_in_one_entry(
        location,
        weather,
        other,
        language,
        updated_at,
        felt,
        warmer,
    );
}

/// What the caller says of the text is the text of the message, as it is. Otherwise the text is
/// the name of the place, a space, the temperature of the air with one decimal, the degree sign
/// with a `C`, another space, and the word of the condition.
pub proof fn the_text_of_a_message(
    order: OrderModel,
    location: &GeoLocation,
    weather: &WeatherResponse,
    now: Seq<char>,
    current: CurrentWeather,
    air: Reading,
)
    requires
        weather.current == Some(current),
        current.temperature_2m == Some(air),
    ensures
        ({
            let content = message::message_model(order, location, weather, now).content;
            match order.body {
                Some(body) => content == body,
                None => content == location.name@ + " "@ + air.one_decimal() + "°C "@ + (
                match current.weather_code {
                    Some(code) => condition::fallback_text_of(condition::condition_of(code)),
                    None => "sunny"@,
                }),
            }
        }),
        message::fallback_body(location, weather) == location.name@ + " "@ + air.one_decimal()
            + "°C "@ + (match current.weather_code {
            Some(code) => condition::fallback_text_of(condition::condition_of(code)),
            None => "sunny"@,
        }),
{
}

/// The temperature that the text of a message shows, and the one that its card shows, are one
/// reading: the tenths of the text and the integer of the card are half a degree apart at most.
pub proof fn the_text_agrees_with_the_card(
    order: OrderModel,
    location: &GeoLocation,
    weather: &WeatherResponse,
    now: Seq<char>,
    current: CurrentWeather,
    air: Reading,
)
    requires
        weather.current == Some(current),
        current.temperature_2m == Some(air),
        order.body is None,
        air.is_finite(),
        -0x7fff_ffff_ffff_ffff <= air.as_integer() < 0x7fff_ffff_ffff_ffff,
    ensures
        ({
            let sent = message::message_model(order, location, weather, now);
            let entries = state::state_entries(location, weather, order.language, now);
            let shown = entries["temp_c"@]->Number_0;
            let tenths = if air.negative() {
                -air.tenths()
            } else {
                air.tenths() as int
            };
            let place = location.name@ + " "@;
            let written = (if air.negative() {
                "-"@
            } else {
                ""@
            }) + decimal::decimal(air.tenths() / 10) + "."@ + decimal::decimal(air.tenths() % 10);
            &&& (place + written + "°C "@).is_prefix_of(sent.content)
            &&& entries["temp_c"@] is Number
            &&& -5 <= tenths - 10 * shown <= 5
        }),
{
    state::keys_differ();
    readings::tenths_agree_with_the_integer(air);
}

/// The text of a message stays the same whatever the forecast says of the humidity, the wind,
/// how warm it feels, the hours and the day.
pub proof fn the_text_depends_on_air_and_code_alone(
    order: OrderModel,
    location: &GeoLocation,
    weather: &WeatherResponse,
    other: &WeatherResponse,
    now: Seq<char>,
    later: Seq<char>,
)
    requires
        weather.current is Some,
        other.current is Some,
        weather.current->Some_0.temperature_2m is Some,
        other.current->Some_0.temperature_2m == weather.current->Some_0.temperature_2m,
        other.current->Some_0.weather_code == weather.current->Some_0.weather_code,
    ensures
        message::message_model(order, location, other, later).content == message::message_model(
            order,
            location,
            weather,
            now,
        ).content,
{
}

/// A message goes to the channel and the chat of its order. It answers no other message, has no
/// media, and carries the state of the card, of the given version and type, and nothing else.
pub proof fn a_message_carries_its_card(
    order: OrderModel,
    location: &GeoLocation,
    weather: &WeatherResponse,
    now: Seq<char>,
)
    ensures
        ({
            let sent = message::message_model(order, location, weather, now);
            &&& sent.channel == order.channel
            &&& sent.chat_id == order.chat_id
            &&& sent.reply_to is None
            &&& sent.media.len() == 0
            &&& sent.metadata matches Json::Object(outer)
            &&& outer.contains_key("org.octos.app"@)
            &&& forall|key: Seq<char>| #[trigger]
                outer.contains_key(key) ==> key == "org.octos.app"@
            &&& outer["org.octos.app"@] matches Json::Object(app)
            &&& app.contains_key("type"@) && app["type"@] == Json::Text("weather"@)
            &&& app.contains_key("version"@) && app["version"@] == Json::Number(2)
            &&& app.contains_key("initial_state"@) && app["initial_state"@] == Json::Object(
                state::state_entries(location, weather, order.language, now),
            )
            &&& forall|key: Seq<char>| #[trigger]
                app.contains_key(key) ==> key == "type"@ || key == "version"@ || key
                    == "initial_state"@
        }),
{
    reveal_strlit("type");
    reveal_strlit("version");
    reveal_strlit("initial_state");
    assert("type"@.len() == 4 && "version"@.len() == 7 && "initial_state"@.len() == 13);
}

/// A message and an order stand for what their fields hold, each field under its own name.
pub proof fn messages_stand_for_their_fields(sent: OutboundMessage, order: CardOrder)
    ensures
        sent@.channel == sent.channel@,
        sent@.chat_id == sent.chat_id@,
        sent@.content == sent.content@,
        sent.reply_to is None ==> sent@.reply_to is None,
        sent.reply_to matches Some(to) ==> sent@.reply_to == Some(to@),
        sent@.media.len() == sent.media@.len(),
        forall|i: int|
            0 <= i < sent.media@.len() ==> #[trigger] sent@.media[i] == sent.media@[i]@,
        sent@.metadata == json::json_of(sent.metadata),
        order@.channel == order.channel@,
        order@.chat_id == order.chat_id@,
        order.body is None ==> order@.body is None,
        order.body matches Some(body) ==> order@.body == Some(body@),
        order.language is None ==> order@.language is None,
        order.language matches Some(language) ==> order@.language == Some(language@),
{
}

} // verus!
