//! The message that carries a card.

use crate::condition;
use crate::forecast::{GeoLocation, WeatherResponse};
use crate::json::{self, Json};
use crate::reading;
use crate::state::{self, StateError};
use crate::text;
use serde_json::Value;
use vstd::prelude::*;

verus! {

/// A message to a chat.
#[derive(Debug)]
pub struct OutboundMessage {
    pub channel: String,
    pub chat_id: String,
    /// The text that clients show which cannot show what `metadata` holds.
    pub content: String,
    pub reply_to: Option<String>,
    pub media: Vec<String>,
    pub metadata: Value,
}

/// What an [`OutboundMessage`] stands for.
pub struct MessageModel {
    pub channel: Seq<char>,
    pub chat_id: Seq<char>,
    pub content: Seq<char>,
    pub reply_to: Option<Seq<char>>,
    pub media: Seq<Seq<char>>,
    pub metadata: Json,
}

impl View for OutboundMessage {
    type V = MessageModel;

    open spec fn view(&self) -> MessageModel {
        MessageModel {
            channel: self.channel@,
            chat_id: self.chat_id@,
            content: self.content@,
            reply_to: text::owned(self.reply_to),
            media: self.media@.map_values(|name: String| name@),
            metadata: json::json_of(self.metadata),
        }
    }
}

/// The card that was asked for: where it goes, and what was said of its text and language.
#[derive(Debug)]
pub struct CardOrder {
    pub channel: String,
    pub chat_id: String,
    pub body: Option<String>,
    pub language: Option<String>,
}

/// What a [`CardOrder`] stands for.
pub struct OrderModel {
    pub channel: Seq<char>,
    pub chat_id: Seq<char>,
    pub body: Option<Seq<char>>,
    pub language: Option<Seq<char>>,
}

impl View for CardOrder {
    type V = OrderModel;

    open spec fn view(&self) -> OrderModel {
        OrderModel {
            channel: self.channel@,
            chat_id: self.chat_id@,
            body: text::owned(self.body),
            language: text::owned(self.language),
        }
    }
}

/// The one-line text for a card: the place, the temperature of the moment with one decimal,
/// and the word for the condition.
pub open spec fn fallback_body(location: &GeoLocation, weather: &WeatherResponse) -> Seq<char> {
    let current = weather.current->Some_0;
    location.name@ + " "@ + current.temperature_2m->Some_0.one_decimal() + "°C "@
        + condition::fallback_text_of(condition::condition_or_sunny(current.weather_code))
}

/// The metadata of a message that carries a card of the given state.
pub open spec fn envelope(state: Map<Seq<char>, Json>) -> Json {
    Json::Object(
        map![
            "org.octos.app"@ => Json::Object(
                map![
                    "type"@ => Json::Text("weather"@),
                    "version"@ => Json::Number(2),
                    "initial_state"@ => Json::Object(state),
                ],
            ),
        ],
    )
}

/// The message that answers `order` with the weather of `location` at the time `now`.
pub open spec fn message_model(
    order: OrderModel,
    location: &GeoLocation,
    weather: &WeatherResponse,
    now: Seq<char>,
) -> MessageModel {
    MessageModel {
        channel: order.channel,
        chat_id: order.chat_id,
        content: match order.body {
            Some(body) => body,
            None => fallback_body(location, weather),
        },
        reply_to: None,
        media: seq![],
        metadata: envelope(state::state_entries(location, weather, order.language, now)),
    }
}

/// Wraps the state of a card for the metadata of a message.
fn wrap_state(initial_state: serde_json::Map<String, Value>) -> (metadata: Value)
    ensures
        json::json_of(metadata) == envelope(json::entries_of(initial_state)),
{
    let mut app = serde_json::Map::new();
    app.insert("type".to_string(), json::text("weather"));
    app.insert("version".to_string(), json::number(2));
    app.insert("initial_state".to_string(), json::object(initial_state));
    let mut metadata = serde_json::Map::new();
    metadata.insert("org.octos.app".to_string(), json::object(app));
    json::object(metadata)
}

/// The one-line text for a card.
pub fn compose_body(name: &str, temperature: reading::Reading, condition: &str) -> (body: String)
    ensures
        body@ == name@ + " "@ + temperature.one_decimal() + "°C "@ + condition::fallback_text_of(
            condition@,
        ),
{
    let mut body = name.to_string();
    body.append(" ");
    body.append(reading::one_decimal_text(temperature).as_str());
    body.append("°C ");
    body.append(condition::condition_fallback_text(condition));
    body
}

/// The message that answers `order` with the weather of `location` at the time `now`.
pub fn compose_message_at(
    order: CardOrder,
    location: &GeoLocation,
    weather: &WeatherResponse,
    now: &str,
) -> (message: Result<OutboundMessage, StateError>)
    ensures
        match message {
            Ok(m) => state::state_error(weather) is None && m@ == message_model(
                order@,
                location,
                weather,
                now@,
            ),
            Err(error) => state::state_error(weather) == Some(error),
        },
{
    let language = match &order.language {
        Some(language) => Some(language.as_str()),
        None => None,
    };
    let initial_state = match state::build_initial_state_at(location, weather, language, now) {
        Ok(initial_state) => initial_state,
        Err(error) => return Err(error),
    };
    proof {
        state::state_has_the_essentials(location, weather, order@.language, now@);
    }
    let temperature = match &weather.current {
        Some(current) => current.temperature_2m.unwrap_or(reading::Reading { bits: 0 }),
        None => reading::Reading { bits: 0 },
    };
    let body = match order.body {
        Some(body) => body,
        None => {
            let condition = match json::lookup(&initial_state, "condition") {
                Some(value) => value.as_str().unwrap_or("sunny"),
                None => "sunny",
            };
            compose_body(location.name.as_str(), temperature, condition)
        },
    };
    let message = OutboundMessage {
        channel: order.channel,
        chat_id: order.chat_id,
        content: body,
        reply_to: None,
        media: Vec::new(),
        metadata: wrap_state(initial_state),
    };
    assert(message@.media =~= seq![]);
    Ok(message)
}

/// The metadata of a card, at any depth, holds no number but integers of 64 bits.
pub proof fn envelope_is_canonical(
    location: &GeoLocation,
    weather: &WeatherResponse,
    language: Option<Seq<char>>,
    now: Seq<char>,
)
    ensures
        json::canonical(envelope(state::state_entries(location, weather, language, now))),
{
    let entries = state::state_entries(location, weather, language, now);
    state::state_is_canonical(location, weather, language, now);
    let whole = envelope(entries)->Object_0;
    let app = whole["org.octos.app"@]->Object_0;
    assert forall|key: Seq<char>| app.contains_key(key) implies json::canonical(
        #[trigger] app[key],
    ) by {}
    assert(json::canonical(Json::Object(app)));
    assert forall|key: Seq<char>| whole.contains_key(key) implies json::canonical(
        #[trigger] whole[key],
    ) by {}
}

/// What a card shows is not made up by who asks for it: whatever else two orders say, the
/// state of the card is the same but for its language, and so is the text where neither order
/// brings one.
pub proof fn card_data_comes_from_the_forecast(
    order: OrderModel,
    other: OrderModel,
    location: &GeoLocation,
    weather: &WeatherResponse,
    now: Seq<char>,
)
    ensures
        message_model(order, location, weather, now).metadata == envelope(
            state::state_entries(location, weather, order.language, now),
        ),
        state::state_entries(location, weather, order.language, now).remove("language"@)
            == state::state_entries(location, weather, other.language, now).remove("language"@),
        order.language == other.language ==> message_model(order, location, weather, now).metadata
            == message_model(other, location, weather, now).metadata,
        order.body is None && other.body is None ==> message_model(
            order,
            location,
            weather,
            now,
        ).content == message_model(other, location, weather, now).content,
{
    state::state_depends_on_language_in_one_entry(
        location,
        weather,
        order.language,
        other.language,
        now,
    );
}

} // verus!
