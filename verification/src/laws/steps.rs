//! Laws of the steps of a run.

use crate::forecast::GeoLocation;
use crate::geocode::{self, SearchModel, SearchReply};
use crate::json::Json;
use crate::language;
use crate::laws::cards;
use crate::message::{self, OrderModel, OutboundMessage};
use crate::run::{
    self, CardStep, Fetching, ForecastReply, ResultModel, Searching, SendReply, StepModel,
    ToolResult,
};
use crate::text;
use crate::tool::{self, ContextModel, Input, CONNECT_TIMEOUT_SECONDS, REQUEST_TIMEOUT_SECONDS};
use vstd::prelude::*;

verus! {

/// A run starts with a search exactly where the channel and the chat, each that of the input
/// or else that of the tool, are not empty, and the city is not blank. The order of that search
/// has this channel, this chat, and the body and the language of the input, each of the four
/// whatever the others are; and the search is the first one for the city as it was given.
pub proof fn a_search_carries_the_input(context: ContextModel, input: Input)
    ensures
        ({
            let channel = match input.channel {
                Some(chosen) => chosen@,
                None => context.channel,
            };
            let chat_id = match input.chat_id {
                Some(chosen) => chosen@,
                None => context.chat_id,
            };
            let named = exists|i: int|
                0 <= i < input.city@.len() && !text::white_space(#[trigger] input.city@[i]);
            &&& tool::first_step(context, input) is Search <==> channel.len() > 0 && chat_id.len()
                > 0 && named
            &&& channel.len() == 0 || chat_id.len() == 0 ==> tool::first_step(context, input)
                == StepModel::Finish(
                ResultModel {
                    output: "Error: No target channel/chat specified."@,
                    success: false,
                },
            )
            &&& channel.len() > 0 && chat_id.len() > 0 && !named ==> tool::first_step(
                context,
                input,
            ) == StepModel::Finish(
                ResultModel { output: "Error: `city` must not be empty."@, success: false },
            )
            &&& tool::first_step(context, input) matches StepModel::Search(order, search) ==> {
                &&& order.channel == channel
                &&& order.chat_id == chat_id
                &&& input.body matches Some(body) ==> order.body == Some(body@)
                &&& input.body is None ==> order.body is None
                &&& input.language matches Some(wanted) ==> order.language == Some(wanted@)
                &&& input.language is None ==> order.language is None
                &&& search.city == input.city@
                &&& search.attempt == 0
                &&& search.last_error is None
            }
        }),
{
}

/// Changing the body of an input changes nothing of the first step but the body of its order,
/// and changing its language nothing but the language.
pub proof fn body_and_language_are_apart(context: ContextModel, input: Input, other: Input)
    requires
        other.city@ == input.city@,
        other.channel == input.channel,
        other.chat_id == input.chat_id,
    ensures
        match tool::first_step(context, input) {
            StepModel::Search(order, search) => {
                &&& tool::first_step(context, other) matches StepModel::Search(changed, same)
                &&& same == search
                &&& changed.channel == order.channel
                &&& changed.chat_id == order.chat_id
                &&& other.body == input.body ==> changed.body == order.body
                &&& other.language == input.language ==> changed.language == order.language
            },
            step => tool::first_step(context, other) == step,
        },
{
}

/// The card that a run sends for an input has the text of the input as its text, where there is
/// one, and has a language entry exactly where the language of the input is one that cards are
/// written in, whether or not there is a text.
pub proof fn sent_cards_keep_text_and_language(
    context: ContextModel,
    input: Input,
    steps: Seq<StepModel>,
    i: int,
)
    requires
        run::is_run(steps),
        steps[0] == tool::first_step(context, input),
        0 <= i < steps.len(),
    ensures
        steps[i] matches StepModel::Send(sent) ==> {
            &&& input.body matches Some(body) ==> sent.content == body@
            &&& sent.metadata matches Json::Object(outer)
            &&& outer["org.octos.app"@] matches Json::Object(app)
            &&& app["initial_state"@] matches Json::Object(entries)
            &&& entries.contains_key("language"@) <==> {
                &&& input.language matches Some(wanted)
                &&& language::language_code_of(wanted@) is Some
            }
            &&& input.language matches Some(wanted) ==> (language::language_code_of(
                wanted@,
            ) matches Some(code) ==> entries["language"@] == Json::Text(code))
        },
{
    if steps[i] is Send {
        a_search_carries_the_input(context, input);
        assert(run::linked(steps, 0));
        assert(run::linked(steps, i - 1));
        assert(run::follows(steps[i - 1], steps[i]));
        run::orders_are_kept(steps, i - 1);
        let order = steps[i - 1]->Fetch_0;
        let location = steps[i - 1]->Fetch_1;
        let (reply, now) = choose|reply: ForecastReply, now: Seq<char>|
            steps[i] == #[trigger] run::after_fetch(order, &location, reply, now);
        let weather = reply->Received_0;
        cards::a_message_carries_its_card(order, &location, &weather, now);
        cards::the_language_is_told_where_it_is_known(&location, &weather, order.language, now);
    }
}

/// A search that finds places is followed by fetching the forecast for the one that is taken of
/// them, under the same order.
pub proof fn a_place_is_followed_by_its_forecast(
    order: OrderModel,
    search: SearchModel,
    places: Vec<GeoLocation>,
)
    requires
        places@.len() > 0,
    ensures
        run::after_search(order, search, SearchReply::Answered(Some(places))) == StepModel::Fetch(
            order,
            geocode::most_populated(places@),
        ),
{
}

/// A search that finds no place is followed by the next one for the same city and order, or,
/// after the last, by the end of the run, which names the city and what went wrong last.
pub proof fn no_place_is_followed_by_the_next_search(
    order: OrderModel,
    search: SearchModel,
    reply: SearchReply,
)
    requires
        reply matches SearchReply::Answered(Some(places)) ==> places@.len() == 0,
    ensures
        ({
            let error = match reply {
                SearchReply::Failed(reason) => Some(reason@),
                SearchReply::Answered(_) => search.last_error,
            };
            let next = SearchModel {
                city: search.city,
                attempt: search.attempt + 1,
                last_error: error,
            };
            let reason = match error {
                Some(why) => "no results from open-meteo geocoding"@ + ": "@ + why,
                None => "no results from open-meteo geocoding"@,
            };
            if next.due() {
                run::after_search(order, search, reply) == StepModel::Search(order, next)
            } else {
                run::after_search(order, search, reply) == StepModel::Finish(
                    ResultModel {
                        output: "Error: Could not find city '"@ + search.city + "': "@ + reason
                            + ". Try a more specific or English city name."@,
                        success: false,
                    },
                )
            }
        }),
{
}

/// A forecast with a temperature of the moment is followed by sending its card. Without one the
/// run ends, and the result names the place and what is missing.
pub proof fn a_forecast_is_followed_by_its_card(
    order: OrderModel,
    location: &GeoLocation,
    reply: ForecastReply,
    now: Seq<char>,
)
    ensures
        ({
            let step = run::after_fetch(order, location, reply, now);
            let unfetched = "Error: Weather fetch for "@ + location.name@ + " failed: "@;
            let unbuilt = "Error: Weather payload build for "@ + location.name@ + " failed: "@;
            match reply {
                ForecastReply::Unreachable => step == StepModel::Finish(
                    ResultModel {
                        output: unfetched + "weather request failed"@,
                        success: false,
                    },
                ),
                ForecastReply::Unreadable => step == StepModel::Finish(
                    ResultModel {
                        output: unfetched + "weather response parse failed"@,
                        success: false,
                    },
                ),
                ForecastReply::Received(weather) => match weather.current {
                    None => step == StepModel::Finish(
                        ResultModel {
                            output: unfetched + "open-meteo returned no current-weather block"@,
                            success: false,
                        },
                    ),
                    Some(current) => if current.temperature_2m is Some {
                        step == StepModel::Send(
                            message::message_model(order, location, &weather, now),
                        )
                    } else {
                        step == StepModel::Finish(
                            ResultModel {
                                output: unbuilt + "open-meteo returned no temperature"@,
                                success: false,
                            },
                        )
                    },
                },
            }
        }),
        run::fetch_refusal(location, reply) is None <==> run::after_fetch(
            order,
            location,
            reply,
            now,
        ) is Send,
        run::fetch_refusal(location, reply) matches Some(words) ==> run::after_fetch(
            order,
            location,
            reply,
            now,
        ) == StepModel::Finish(ResultModel { output: words, success: false }),
{
}

/// A card that was sent ends the run with success and without a word; one that could not be
/// sent fails it, and the reason is handed on.
pub proof fn sending_is_followed_by_the_end(reason: String)
    ensures
        run::after_send(SendReply::Sent) matches StepModel::Finish(result) && result.success
            && result.output.len() == 0,
        run::after_send(SendReply::Failed(reason)) == StepModel::Fail(
            "failed to send weather card message: "@ + reason@,
        ),
{
}

/// A step stands for what it holds.
pub proof fn steps_stand_for_what_they_hold(
    searching: Searching,
    fetching: Fetching,
    sent: OutboundMessage,
    result: ToolResult,
    reason: String,
)
    ensures
        CardStep::Search(searching)@ == StepModel::Search(searching.order@, searching.search@),
        CardStep::Fetch(fetching)@ == StepModel::Fetch(fetching.order@, fetching.location),
        CardStep::Send(sent)@ == StepModel::Send(sent@),
        CardStep::Finish(result)@ == StepModel::Finish(result@),
        CardStep::Fail(reason)@ == StepModel::Fail(reason@),
        result@.output == result.output@,
        result@.success == result.success,
{
}

/// The tool asks for an object with these five texts, of which the city alone is required, and
/// says of each what it is for.
pub proof fn the_tool_asks_for_these_texts()
    ensures
        ({
            &&& tool::schema_model() matches Json::Object(schema)
            &&& schema["type"@] == Json::Text("object"@)
            &&& schema["required"@] == Json::Array(seq![Json::Text("city"@)])
            &&& schema.contains_key("properties"@) && schema.contains_key("type"@)
            &&& schema.contains_key("required"@)
            &&& forall|key: Seq<char>| #[trigger]
                schema.contains_key(key) ==> key == "type"@ || key == "properties"@ || key
                    == "required"@
            &&& schema["properties"@] matches Json::Object(properties)
            &&& forall|key: Seq<char>| #[trigger]
                properties.contains_key(key) <==> key == "city"@ || key == "body"@ || key
                    == "language"@ || key == "channel"@ || key == "chat_id"@
            &&& forall|key: Seq<char>| #[trigger]
                properties.contains_key(key) ==> {
                    &&& properties[key] matches Json::Object(property)
                    &&& property["type"@] == Json::Text("string"@)
                    &&& property["description"@] is Text
                    &&& property.contains_key("type"@) && property.contains_key("description"@)
                    &&& forall|name: Seq<char>| #[trigger]
                        property.contains_key(name) ==> name == "type"@ || name == "description"@
                }
            &&& properties["city"@]->Object_0["description"@]->Text_0
                == "City name. Both English (\"Beijing\", \"New York\") and non-English (\"北京\") are accepted. English works most reliably with the open-meteo geocoder."@
            &&& properties["body"@]->Object_0["description"@]->Text_0
                == "Optional one-line fallback text shown by clients that don't render the app envelope. If omitted, the tool auto-generates one like \"Beijing 22°C sunny\". Use the user's language if you set this explicitly."@
            &&& properties["language"@]->Object_0["description"@]->Text_0
                == "Optional reply language for the card copy. Use `zh-CN` when the user asks for Chinese, and `en` for English. This overrides the capable client's global UI language for this card only."@
            &&& properties["channel"@]->Object_0["description"@]->Text_0
                == "Target channel. Defaults to current."@
            &&& properties["chat_id"@]->Object_0["description"@]->Text_0
                == "Target chat/user ID. Defaults to current."@
        }),
{
    reveal_strlit("type");
    reveal_strlit("properties");
    reveal_strlit("required");
    reveal_strlit("description");
    reveal_strlit("city");
    reveal_strlit("body");
    reveal_strlit("language");
    reveal_strlit("channel");
    reveal_strlit("chat_id");
    assert("type"@.len() == 4 && "properties"@.len() == 10 && "required"@.len() == 8);
    assert("description"@.len() == 11);
    assert("city"@.len() == 4 && "city"@[0] == 'c');
    assert("body"@.len() == 4 && "body"@[0] == 'b');
    assert("language"@.len() == 8);
    assert("channel"@.len() == 7 && "channel"@[2] == 'a' && "channel"@[3] == 'n');
    assert("chat_id"@.len() == 7 && "chat_id"@[2] == 'a' && "chat_id"@[3] == 't');
}

/// A request may take twelve seconds, of which five may go by before it is connected.
pub proof fn requests_have_this_time()
    ensures
        REQUEST_TIMEOUT_SECONDS == 12,
        CONNECT_TIMEOUT_SECONDS == 5,
{
}

} // verus!
