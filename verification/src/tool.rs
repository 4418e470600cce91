//! The tool that shows a weather card for a city in one step.

use crate::geocode::{GeocodeSearch, SearchModel};
use crate::json::{self, Json};
use crate::message::{CardOrder, OrderModel};
use crate::run::{self, CardStep, Searching, StepModel};
use crate::text;
use serde_json::Value;
use vstd::prelude::*;

verus! {

/// How many seconds a request to the weather service may take.
pub const REQUEST_TIMEOUT_SECONDS: u64 = 12;

/// How many seconds connecting to the weather service may take.
pub const CONNECT_TIMEOUT_SECONDS: u64 = 5;

/// What the caller of the tool asks for.
#[derive(Debug)]
pub struct Input {
    /// The name of the city. English names work best; others are searched in more languages.
    pub city: String,
    /// The text for clients that cannot show a card.
    pub body: Option<String>,
    /// The language of the card.
    pub language: Option<String>,
    /// Where the card goes, if not to the channel of the tool.
    pub channel: Option<String>,
    /// Where the card goes, if not to the chat of the tool.
    pub chat_id: Option<String>,
}

/// The tool of one session: it knows the chat that a card goes to by default.
#[derive(Debug)]
pub struct ShowWeatherCardTool {
    default_channel: String,
    default_chat_id: String,
}

/// What a [`ShowWeatherCardTool`] stands for: the chat that a card goes to by default.
pub struct ContextModel {
    pub channel: Seq<char>,
    pub chat_id: Seq<char>,
}

impl View for ShowWeatherCardTool {
    type V = ContextModel;

    closed spec fn view(&self) -> ContextModel {
        ContextModel { channel: self.default_channel@, chat_id: self.default_chat_id@ }
    }
}

/// `chosen`, or `default` where nothing is chosen.
pub open spec fn chosen_or(chosen: Option<Seq<char>>, default: Seq<char>) -> Seq<char> {
    match chosen {
        Some(c) => c,
        None => default,
    }
}

/// What the run for `input` starts with, in a tool with the default chat `context`: the search for the
/// city, unless there is no chat to send the card to, or no city.
pub open spec fn first_step(context: ContextModel, input: Input) -> StepModel {
    let channel = chosen_or(text::owned(input.channel), context.channel);
    let chat_id = chosen_or(text::owned(input.chat_id), context.chat_id);
    if channel.len() == 0 || chat_id.len() == 0 {
        run::refused("Error: No target channel/chat specified."@)
    } else if text::blank(input.city@) {
        run::refused("Error: `city` must not be empty."@)
    } else {
        StepModel::Search(
            OrderModel {
                channel,
                chat_id,
                body: text::owned(input.body),
                language: text::owned(input.language),
            },
            SearchModel { city: input.city@, attempt: 0, last_error: None },
        )
    }
}

/// The schema of a text property with the given description.
pub open spec fn text_property_model(description: Seq<char>) -> Json {
    Json::Object(
        map!["type"@ => Json::Text("string"@), "description"@ => Json::Text(description)],
    )
}

/// The schema of a text property with the given description.
fn text_property(description: &str) -> (property: Value)
    ensures
        json::json_of(property) == text_property_model(description@),
{
    let mut property = serde_json::Map::new();
    property.insert("type".to_string(), json::text("string"));
    property.insert("description".to_string(), json::text(description));
    json::object(property)
}

/// What the tool accepts: an object with the city, and whatever else is given of the text, the
/// language, the channel and the chat.
pub open spec fn schema_model() -> Json {
    Json::Object(
        map![
            "type"@ => Json::Text("object"@),
            "properties"@ => Json::Object(
                map![
                    "city"@ => text_property_model(
                        "City name. Both English (\"Beijing\", \"New York\") and non-English (\"北京\") are accepted. English works most reliably with the open-meteo geocoder."@,
                    ),
                    "body"@ => text_property_model(
                        "Optional one-line fallback text shown by clients that don't render the app envelope. If omitted, the tool auto-generates one like \"Beijing 22°C sunny\". Use the user's language if you set this explicitly."@,
                    ),
                    "language"@ => text_property_model(
                        "Optional reply language for the card copy. Use `zh-CN` when the user asks for Chinese, and `en` for English. This overrides the capable client's global UI language for this card only."@,
                    ),
                    "channel"@ => text_property_model(
                        "Target channel. Defaults to current."@,
                    ),
                    "chat_id"@ => text_property_model(
                        "Target chat/user ID. Defaults to current."@,
                    ),
                ],
            ),
            "required"@ => Json::Array(seq![Json::Text("city"@)]),
        ],
    )
}

impl ShowWeatherCardTool {
    /// A tool without a default chat.
    pub fn new() -> (tool: Self)
        ensures
            tool@ == (ContextModel { channel: ""@, chat_id: ""@ }),
    {
        Self::build("", "")
    }

    /// A tool whose cards go to the given chat by default.
    pub fn with_context(channel: &str, chat_id: &str) -> (tool: Self)
        ensures
            tool@ == (ContextModel { channel: channel@, chat_id: chat_id@ }),
    {
        Self::build(channel, chat_id)
    }

    fn build(channel: &str, chat_id: &str) -> (tool: Self)
        ensures
            tool@ == (ContextModel { channel: channel@, chat_id: chat_id@ }),
    {
        ShowWeatherCardTool {
            default_channel: channel.to_string(),
            default_chat_id: chat_id.to_string(),
        }
    }

    /// Makes cards go to the given chat by default.
    pub fn set_context(&mut self, channel: &str, chat_id: &str)
        ensures
            final(self)@ == (ContextModel { channel: channel@, chat_id: chat_id@ }),
    {
        self.default_channel = channel.to_string();
        self.default_chat_id = chat_id.to_string();
    }

    /// The name of the tool.
    pub fn name(&self) -> (name: &'static str)
        ensures
            name@ == "show_weather_card"@,
    {
        "show_weather_card"
    }

    /// What the tool is for, addressed to the model that calls it.
    pub fn description(&self) -> (description: &'static str)
        ensures
            description@
                == "Show a native GPU-rendered weather card for a city. This is a ONE-STEP tool — you do NOT need to call `get_weather` first. This tool internally fetches real weather from open-meteo, maps it to the Robrix weather card schema, and emits a message with a structured `org.octos.app` envelope. Use this tool for ANY weather query from the user. Capable clients (Robrix) render this as a full-width GPU card showing city, temperature, conditions, humidity, wind, and feels-like. Other clients fall back to the `body` text. You provide the city name — and, when the user asks for a specific reply language, also provide `language` (`zh-CN` or `en`) — the tool handles geocoding, real-data fetching, condition classification, and envelope construction. NEVER call `get_weather` followed by `send_app_card` for weather queries — use this tool instead. After this tool succeeds, the card IS the reply; do NOT additionally output a markdown text summary."@,
    {
        "Show a native GPU-rendered weather card for a city. This is a ONE-STEP tool — you do NOT need to call `get_weather` first. This tool internally fetches real weather from open-meteo, maps it to the Robrix weather card schema, and emits a message with a structured `org.octos.app` envelope. Use this tool for ANY weather query from the user. Capable clients (Robrix) render this as a full-width GPU card showing city, temperature, conditions, humidity, wind, and feels-like. Other clients fall back to the `body` text. You provide the city name — and, when the user asks for a specific reply language, also provide `language` (`zh-CN` or `en`) — the tool handles geocoding, real-data fetching, condition classification, and envelope construction. NEVER call `get_weather` followed by `send_app_card` for weather queries — use this tool instead. After this tool succeeds, the card IS the reply; do NOT additionally output a markdown text summary."
    }

    /// The groups that the tool belongs to.
    pub fn tags(&self) -> (tags: &'static [&'static str])
        ensures
            tags@.len() == 2,
            tags@[0]@ == "gateway"@,
            tags@[1]@ == "app_reply"@,
    {
        &["gateway", "app_reply"]
    }

    /// What the tool accepts, as a JSON schema.
    pub fn input_schema(&self) -> (schema: Value)
        ensures
            json::json_of(schema) == schema_model(),
    {
        let mut properties = serde_json::Map::new();
        properties.insert(
            "city".to_string(),
            text_property(
                "City name. Both English (\"Beijing\", \"New York\") and non-English (\"北京\") are accepted. English works most reliably with the open-meteo geocoder.",
            ),
        );
        properties.insert(
            "body".to_string(),
            text_property(
                "Optional one-line fallback text shown by clients that don't render the app envelope. If omitted, the tool auto-generates one like \"Beijing 22°C sunny\". Use the user's language if you set this explicitly.",
            ),
        );
        properties.insert(
            "language".to_string(),
            text_property(
                "Optional reply language for the card copy. Use `zh-CN` when the user asks for Chinese, and `en` for English. This overrides the capable client's global UI language for this card only.",
            ),
        );
        properties.insert(
            "channel".to_string(),
            text_property("Target channel. Defaults to current."),
        );
        properties.insert(
            "chat_id".to_string(),
            text_property("Target chat/user ID. Defaults to current."),
        );
        let mut required: Vec<Value> = Vec::new();
        required.push(json::text("city"));
        assert(json::json_of_each(required@) =~= seq![Json::Text("city"@)]);
        let mut schema = serde_json::Map::new();
        schema.insert("type".to_string(), json::text("object"));
        schema.insert("properties".to_string(), json::object(properties));
        schema.insert("required".to_string(), json::array(required));
        json::object(schema)
    }

    /// Begins a run of the tool, and says what is to be done first.
    pub fn begin(&self, input: Input) -> (step: CardStep)
        ensures
            step@ == first_step(self@, input),
    {
        let channel = match input.channel {
            Some(channel) => channel,
            None => self.default_channel.clone(),
        };
        let chat_id = match input.chat_id {
            Some(chat_id) => chat_id,
            None => self.default_chat_id.clone(),
        };
        if channel.as_str().is_empty() || chat_id.as_str().is_empty() {
            return run::refuse("Error: No target channel/chat specified.".to_string());
        }
        if text::is_blank(input.city.as_str()) {
            return run::refuse("Error: `city` must not be empty.".to_string());
        }
        CardStep::Search(
            Searching {
                order: CardOrder { channel, chat_id, body: input.body, language: input.language },
                search: GeocodeSearch::start(input.city),
            },
        )
    }
}

/// Whatever the input, what the tool says to do first starts a run: the plain search for the
/// city as it was given, or an end without success that says why.
pub proof fn first_steps_start_runs(context: ContextModel, input: Input)
    ensures
        run::can_start(first_step(context, input)),
        first_step(context, input) matches StepModel::Search(_, search)
            ==> search.city == input.city@,
{
    reveal_strlit("Error: ");
    reveal_strlit("Error: No target channel/chat specified.");
    reveal_strlit("Error: `city` must not be empty.");
    assert("Error: "@.is_prefix_of("Error: No target channel/chat specified."@));
    assert("Error: "@.is_prefix_of("Error: `city` must not be empty."@));
}

/// A card is sent only to the chat that the input names, or the tool by default, and never
/// without a channel or a chat.
pub proof fn cards_go_to_the_chosen_chat(
    context: ContextModel,
    input: Input,
    steps: Seq<StepModel>,
    i: int,
)
    requires
        run::is_run(steps),
        steps[0] == first_step(context, input),
        0 <= i < steps.len(),
    ensures
        steps[i] matches StepModel::Send(message) ==> {
            &&& message.channel == chosen_or(text::owned(input.channel), context.channel)
            &&& message.chat_id == chosen_or(text::owned(input.chat_id), context.chat_id)
            &&& message.channel.len() > 0
            &&& message.chat_id.len() > 0
        },
{
    run::orders_are_kept(steps, i);
    if i > 0 {
        assert(run::linked(steps, 0));
    }
}

} // verus!
