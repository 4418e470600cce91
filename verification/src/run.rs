//! One run of the tool: from the search for a city to the card that was sent.
//!
//! A run is a chain of steps. Each step says what is to be done outside (search, fetch, send)
//! and takes the reply; the step that follows is decided here.

use crate::clock;
use crate::forecast::{GeoLocation, WeatherResponse};
use crate::geocode::{
    most_populated_is_a_result, places_in, search_languages, GeocodeSearch, SearchModel,
    SearchReply, SearchStep, SearchStepModel,
};
use crate::json;
use crate::message::{self, CardOrder, MessageModel, OrderModel, OutboundMessage};
use crate::state::{self, StateError};
use crate::text;
use crate::url;
use vstd::prelude::*;

verus! {

/// How a run ended, for the caller of the tool.
#[derive(Debug)]
pub struct ToolResult {
    /// What went wrong, in words; empty where nothing did.
    pub output: String,
    pub success: bool,
}

/// What a [`ToolResult`] stands for.
pub struct ResultModel {
    pub output: Seq<char>,
    pub success: bool,
}

impl View for ToolResult {
    type V = ResultModel;

    open spec fn view(&self) -> ResultModel {
        ResultModel { output: self.output@, success: self.success }
    }
}

/// What is to be done next.
#[derive(Debug)]
pub enum CardStep {
    /// Search for the city.
    Search(Searching),
    /// Fetch the forecast for the place that was found.
    Fetch(Fetching),
    /// Send this message.
    Send(OutboundMessage),
    /// Nothing: the run has ended with this result.
    Finish(ToolResult),
    /// Nothing: the run has failed, for the reason given.
    Fail(String),
}

/// A run whose city is searched for.
#[derive(Debug)]
pub struct Searching {
    pub order: CardOrder,
    pub search: GeocodeSearch,
}

/// A run whose forecast is fetched.
#[derive(Debug)]
pub struct Fetching {
    pub order: CardOrder,
    pub location: GeoLocation,
}

/// What came back from the request for a forecast.
#[derive(Debug)]
pub enum ForecastReply {
    /// The request could not be made.
    Unreachable,
    /// The answer could not be read.
    Unreadable,
    /// The answer.
    Received(WeatherResponse),
}

/// What came back from sending a message.
#[derive(Debug)]
pub enum SendReply {
    Sent,
    /// The message could not be sent, for the reason given.
    Failed(String),
}

/// What a [`CardStep`] stands for.
pub enum StepModel {
    Search(OrderModel, SearchModel),
    Fetch(OrderModel, GeoLocation),
    Send(MessageModel),
    Finish(ResultModel),
    Fail(Seq<char>),
}

impl View for CardStep {
    type V = StepModel;

    open spec fn view(&self) -> StepModel {
        match *self {
            CardStep::Search(run) => StepModel::Search(run.order@, run.search@),
            CardStep::Fetch(run) => StepModel::Fetch(run.order@, run.location),
            CardStep::Send(message) => StepModel::Send(message@),
            CardStep::Finish(result) => StepModel::Finish(result@),
            CardStep::Fail(reason) => StepModel::Fail(reason@),
        }
    }
}

/// The end of a run that has gone wrong in the way that `words` says.
pub open spec fn refused(words: Seq<char>) -> StepModel {
    StepModel::Finish(ResultModel { output: words, success: false })
}

/// The words for a city that was not found.
pub open spec fn not_found_words(city: Seq<char>, reason: Seq<char>) -> Seq<char> {
    "Error: Could not find city '"@ + city + "': "@ + reason
        + ". Try a more specific or English city name."@
}

/// The words for a forecast that was not to be had.
pub open spec fn fetch_failed_words(place: Seq<char>, reason: Seq<char>) -> Seq<char> {
    "Error: Weather fetch for "@ + place + " failed: "@ + reason
}

/// The words for a forecast that makes no card.
pub open spec fn build_failed_words(place: Seq<char>, reason: Seq<char>) -> Seq<char> {
    "Error: Weather payload build for "@ + place + " failed: "@ + reason
}

/// The words for a card that could not be sent.
pub open spec fn send_failed_words(reason: Seq<char>) -> Seq<char> {
    "failed to send weather card message: "@ + reason
}

/// What follows a search: fetching the forecast for the place that was found, the next search,
/// or the end of the run.
pub open spec fn after_search(
    order: OrderModel,
    search: SearchModel,
    reply: SearchReply,
) -> StepModel {
    match search.after(reply) {
        SearchStepModel::Found(location) => StepModel::Fetch(order, location),
        SearchStepModel::Again(next) => StepModel::Search(order, next),
        SearchStepModel::Exhausted(reason) => refused(not_found_words(search.city, reason)),
    }
}

/// Why the reply to the request for the forecast of `location` ends the run, in words, if it
/// does: there is no forecast, or none that makes a card.
pub open spec fn fetch_refusal(location: &GeoLocation, reply: ForecastReply) -> Option<Seq<char>> {
    match reply {
        ForecastReply::Unreachable => Some(
            fetch_failed_words(location.name@, "weather request failed"@),
        ),
        ForecastReply::Unreadable => Some(
            fetch_failed_words(location.name@, "weather response parse failed"@),
        ),
        ForecastReply::Received(weather) => match state::state_error(&weather) {
            Some(StateError::NoCurrentWeather) => Some(
                fetch_failed_words(location.name@, StateError::NoCurrentWeather.words()),
            ),
            Some(error) => Some(build_failed_words(location.name@, error.words())),
            None => None,
        },
    }
}

/// What follows the fetching of a forecast at the time `now`: the end of the run where the reply
/// is refused, and sending the card otherwise.
pub open spec fn after_fetch(
    order: OrderModel,
    location: &GeoLocation,
    reply: ForecastReply,
    now: Seq<char>,
) -> StepModel {
    match fetch_refusal(location, reply) {
        Some(words) => refused(words),
        None => StepModel::Send(
            message::message_model(order, location, &reply->Received_0, now),
        ),
    }
}

/// What follows the sending of a card: the end of the run.
pub open spec fn after_send(reply: SendReply) -> StepModel {
    match reply {
        SendReply::Sent => StepModel::Finish(ResultModel { output: seq![], success: true }),
        SendReply::Failed(reason) => StepModel::Fail(send_failed_words(reason@)),
    }
}

/// The end of a run that has gone wrong.
pub(crate) fn refuse(words: String) -> (step: CardStep)
    ensures
        step@ == refused(words@),
{
    CardStep::Finish(ToolResult { output: words, success: false })
}

/// The end of a run whose forecast was not to be had.
fn refuse_fetch(place: &str, reason: &str) -> (step: CardStep)
    ensures
        step@ == refused(fetch_failed_words(place@, reason@)),
{
    let mut words = "Error: Weather fetch for ".to_string();
    words.append(place);
    words.append(" failed: ");
    words.append(reason);
    refuse(words)
}

/// The end of a run whose forecast makes no card.
fn refuse_build(place: &str, reason: &str) -> (step: CardStep)
    ensures
        step@ == refused(build_failed_words(place@, reason@)),
{
    let mut words = "Error: Weather payload build for ".to_string();
    words.append(place);
    words.append(" failed: ");
    words.append(reason);
    refuse(words)
}

impl Searching {
    /// The address of the search that is due.
    pub fn url(&self) -> (url: String)
        ensures
            url@ == self.search@.url(),
    {
        self.search.url()
    }

    /// Takes the reply to the search, and says what is to be done next.
    pub fn advance(self, reply: SearchReply) -> (step: CardStep)
        ensures
            step@ == after_search(self.order@, self.search@, reply),
    {
        let mut words = "Error: Could not find city '".to_string();
        words.append(self.search.city());
        words.append("': ");
        match self.search.advance(reply) {
            SearchStep::Found(location) => CardStep::Fetch(Fetching { order: self.order, location }),
            SearchStep::Again(search) => CardStep::Search(Searching { order: self.order, search }),
            SearchStep::Exhausted(reason) => {
                words.append(reason.as_str());
                words.append(". Try a more specific or English city name.");
                refuse(words)
            },
        }
    }
}

impl Fetching {
    /// The address of the forecast.
    pub fn url(&self) -> (url: String)
        ensures
            url@ == url::forecast_url_of(
                self.location.latitude@,
                self.location.longitude@,
                text::owned(self.location.timezone),
            ),
    {
        let timezone = match &self.location.timezone {
            Some(zone) => Some(zone.as_str()),
            None => None,
        };
        url::forecast_url(
            self.location.latitude.as_str(),
            self.location.longitude.as_str(),
            timezone,
        )
    }

    /// Takes the reply to the request for the forecast at the time `now`, and says what is to
    /// be done next.
    pub fn advance_at(self, reply: ForecastReply, now: &str) -> (step: CardStep)
        ensures
            step@ == after_fetch(self.order@, &self.location, reply, now@),
    {
        let place = self.location.name.as_str();
        match reply {
            ForecastReply::Unreachable => refuse_fetch(place, "weather request failed"),
            ForecastReply::Unreadable => refuse_fetch(place, "weather response parse failed"),
            ForecastReply::Received(weather) => match message::compose_message_at(
                self.order,
                &self.location,
                &weather,
                now,
            ) {
                Ok(message) => CardStep::Send(message),
                Err(StateError::NoCurrentWeather) => refuse_fetch(
                    place,
                    StateError::NoCurrentWeather.message(),
                ),
                Err(error) => refuse_build(place, error.message()),
            },
        }
    }

    /// Takes the reply to the request for the forecast, and says what is to be done next. A
    /// card that is to be sent carries the current time; the clock is read for no other reply.
    pub fn advance(self, reply: ForecastReply) -> (step: CardStep)
        ensures
            match fetch_refusal(&self.location, reply) {
                Some(words) => step@ == refused(words),
                None => exists|now: Seq<char>| #[trigger]
                    clock::stamped_in_utc(now) && step@ == after_fetch(
                        self.order@,
                        &self.location,
                        reply,
                        now,
                    ),
            },
    {
        let makes_card = match &reply {
            ForecastReply::Received(weather) => state::find_state_error(weather).is_none(),
            _ => false,
        };
        if makes_card {
            let now = clock::current_time();
            self.advance_at(reply, now.as_str())
        } else {
            self.advance_at(reply, "")
        }
    }
}

/// Takes the reply to the sending of a card, and ends the run.
pub fn finish_send(reply: SendReply) -> (step: CardStep)
    ensures
        step@ == after_send(reply),
{
    match reply {
        SendReply::Sent => CardStep::Finish(ToolResult { output: String::new(), success: true }),
        SendReply::Failed(reason) => {
            let mut words = "failed to send weather card message: ".to_string();
            words.append(reason.as_str());
            CardStep::Fail(words)
        },
    }
}

/// Whether `next` can follow the step `step`, whatever the reply and the time.
pub open spec fn follows(step: StepModel, next: StepModel) -> bool {
    match step {
        StepModel::Search(order, search) => exists|reply: SearchReply|
            next == #[trigger] after_search(order, search, reply),
        StepModel::Fetch(order, location) => exists|reply: ForecastReply, now: Seq<char>|
            next == #[trigger] after_fetch(order, &location, reply, now),
        StepModel::Send(_) => exists|reply: SendReply| next == #[trigger] after_send(reply),
        StepModel::Finish(_) => false,
        StepModel::Fail(_) => false,
    }
}

/// Whether the step after the step `i` of `steps` can follow it.
pub open spec fn linked(steps: Seq<StepModel>, i: int) -> bool {
    follows(steps[i], steps[i + 1])
}

/// Whether a run can start with `step`: with the first search for a city, or with its end,
/// where there is no city to search for or no chat to send a card to.
pub open spec fn can_start(step: StepModel) -> bool {
    match step {
        StepModel::Search(_, search) => search.attempt == 0 && search.due(),
        StepModel::Finish(result) => !result.success && "Error: "@.is_prefix_of(result.output),
        _ => false,
    }
}

/// Whether `steps` is a run, or the beginning of one.
pub open spec fn is_run(steps: Seq<StepModel>) -> bool {
    &&& steps.len() > 0
    &&& can_start(steps[0])
    &&& forall|i: int| 0 <= i < steps.len() - 1 ==> #[trigger] linked(steps, i)
}

/// Whether a card is sent in the course of `steps`.
pub open spec fn sends_a_card(steps: Seq<StepModel>) -> bool {
    exists|i: int| 0 <= i < steps.len() && #[trigger] steps[i] is Send
}

/// A run that ends with success has sent its card, one that ends with an error has sent none,
/// and one that fails has failed at sending it.
pub proof fn success_means_a_card_was_sent(steps: Seq<StepModel>)
    requires
        is_run(steps),
    ensures
        steps.last() matches StepModel::Finish(result) ==> (result.success <==> sends_a_card(
            steps,
        )),
        steps.last() is Fail ==> sends_a_card(steps),
{
    sending_is_the_last_but_one(steps);
    let last = steps.len() - 1;
    if last > 0 {
        assert(linked(steps, last - 1));
        if steps[last] is Finish || steps[last] is Fail {
            if steps[last - 1] is Send {
                assert(sends_a_card(steps));
            } else if sends_a_card(steps) {
                let i = choose|i: int| 0 <= i < steps.len() && #[trigger] steps[i] is Send;
                assert(i >= last - 1);
            }
        }
    }
}

/// After a card is sent only the end of the run can follow, so that no run sends two.
pub proof fn sending_is_the_last_but_one(steps: Seq<StepModel>)
    requires
        is_run(steps),
    ensures
        forall|i: int|
            0 <= i < steps.len() && #[trigger] steps[i] is Send ==> i >= steps.len() - 2,
        forall|i: int, j: int|
            0 <= i < steps.len() && 0 <= j < steps.len() && #[trigger] steps[i] is Send
                && #[trigger] steps[j] is Send ==> i == j,
{
    assert forall|i: int| 0 <= i < steps.len() && #[trigger] steps[i] is Send implies i
        >= steps.len() - 2 by {
        if i + 2 < steps.len() {
            assert(linked(steps, i));
            assert(linked(steps, i + 1));
        }
    }
    assert forall|i: int, j: int|
        0 <= i < steps.len() && 0 <= j < steps.len() && #[trigger] steps[i] is Send
            && #[trigger] steps[j] is Send implies i == j by {
        if i < j {
            assert(linked(steps, j - 1));
        } else if j < i {
            assert(linked(steps, i - 1));
        }
    }
}

/// A run that ends without success says why, in words that start with `Error: `; one that ends
/// with success has nothing to say; and one that fails says that the card could not be sent.
pub proof fn errors_have_words(steps: Seq<StepModel>)
    requires
        is_run(steps),
    ensures
        steps.last() matches StepModel::Finish(result) ==> if result.success {
            result.output.len() == 0
        } else {
            "Error: "@.is_prefix_of(result.output)
        },
        steps.last() matches StepModel::Fail(reason)
            ==> "failed to send weather card message: "@.is_prefix_of(reason),
{
    let last = steps.len() - 1;
    reveal_strlit("Error: ");
    reveal_strlit("Error: Could not find city '");
    reveal_strlit("Error: Weather fetch for ");
    reveal_strlit("Error: Weather payload build for ");
    assert("Error: "@.is_prefix_of("Error: Could not find city '"@));
    assert("Error: "@.is_prefix_of("Error: Weather fetch for "@));
    assert("Error: "@.is_prefix_of("Error: Weather payload build for "@));
    if last > 0 {
        assert(linked(steps, last - 1));
    }
}

/// A forecast is fetched only for a place that the search has brought, and for no other order.
pub proof fn fetched_places_were_found(order: OrderModel, search: SearchModel, reply: SearchReply)
    ensures
        after_search(order, search, reply) matches StepModel::Fetch(kept, location) ==> kept
            == order && places_in(reply).contains(location),
{
    if places_in(reply).len() > 0 {
        most_populated_is_a_result(places_in(reply));
    }
}

/// Every card that is sent goes to the chat that was asked for, and its metadata can travel as
/// canonical JSON.
pub proof fn sent_cards_are_addressed_and_canonical(
    order: OrderModel,
    location: &GeoLocation,
    reply: ForecastReply,
    now: Seq<char>,
)
    ensures
        after_fetch(order, location, reply, now) matches StepModel::Send(message) ==> {
            &&& message.channel == order.channel
            &&& message.chat_id == order.chat_id
            &&& json::canonical(message.metadata)
        },
{
    if let ForecastReply::Received(weather) = reply {
        message::envelope_is_canonical(location, &weather, order.language, now);
    }
}

/// The order of a run does not change on the way to the card.
pub proof fn orders_are_kept(steps: Seq<StepModel>, i: int)
    requires
        is_run(steps),
        0 <= i < steps.len(),
    ensures
        steps[i] matches StepModel::Search(order, search) ==> order == steps[0]->Search_0
            && search.city == steps[0]->Search_1.city,
        steps[i] matches StepModel::Fetch(order, _) ==> order == steps[0]->Search_0,
        steps[i] matches StepModel::Send(message) ==> message.channel
            == steps[0]->Search_0.channel && message.chat_id == steps[0]->Search_0.chat_id,
    decreases i,
{
    if i > 0 {
        orders_are_kept(steps, i - 1);
        assert(linked(steps, i - 1));
    }
}

/// A search comes at index `i` of a run only as the search number `i` of its city, and only
/// where that city has a language of that number.
pub proof fn searches_come_first(steps: Seq<StepModel>, i: int)
    requires
        is_run(steps),
        0 <= i < steps.len(),
    ensures
        steps[i] matches StepModel::Search(_, search) ==> search.attempt == i && search.due(),
    decreases i,
{
    if i > 0 {
        searches_come_first(steps, i - 1);
        assert(linked(steps, i - 1));
    }
}

/// How many steps can at most stand between the last search and `step`.
spec fn steps_past_search(step: StepModel) -> int {
    match step {
        StepModel::Search(_, _) => 0,
        StepModel::Fetch(_, _) => 1,
        StepModel::Send(_) => 2,
        StepModel::Finish(_) => 3,
        StepModel::Fail(_) => 3,
    }
}

/// Every run ends: it has at most one search for each language of its city, and three steps
/// more.
pub proof fn runs_end(steps: Seq<StepModel>)
    requires
        is_run(steps),
        steps[0] is Search,
    ensures
        steps.len() <= search_languages(steps[0]->Search_1.city).len() + 3,
{
    step_is_near_its_search(steps, steps.len() - 1);
}

/// The step `i` of a run comes no later than the last search allows.
proof fn step_is_near_its_search(steps: Seq<StepModel>, i: int)
    requires
        is_run(steps),
        steps[0] is Search,
        0 <= i < steps.len(),
    ensures
        i < search_languages(steps[0]->Search_1.city).len() + steps_past_search(steps[i]),
    decreases i,
{
    searches_come_first(steps, i);
    orders_are_kept(steps, i);
    if i > 0 {
        step_is_near_its_search(steps, i - 1);
        assert(linked(steps, i - 1));
    }
}

} // verus!
