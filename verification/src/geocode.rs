//! The search for the place that a city name means.

use crate::forecast::GeoLocation;
use crate::text;
use crate::url;
use vstd::prelude::*;
use vstd::utf8;

verus! {

/// The languages that a name is searched in, in order; the empty one is the plain search. A
/// name beyond ASCII is searched in more of them.
pub open spec fn search_languages(city: Seq<char>) -> Seq<Seq<char>> {
    if utf8::is_ascii_chars(city) {
        seq![""@]
    } else {
        seq![""@, "zh"@, "ja"@, "ko"@, "ru"@, "ar"@, "hi"@]
    }
}

/// How many people live in `place`: none where that is not known.
pub open spec fn population_of(place: GeoLocation) -> int {
    match place.population {
        Some(people) => people as int,
        None => 0,
    }
}

/// Whether the place `i` of `places` is the one to take: of those where most people live, the
/// first.
pub open spec fn is_most_populated(places: Seq<GeoLocation>, i: int) -> bool {
    &&& 0 <= i < places.len()
    &&& forall|j: int|
        0 <= j < places.len() ==> population_of(#[trigger] places[j]) <= population_of(places[i])
    &&& forall|j: int| 0 <= j < i ==> population_of(#[trigger] places[j]) < population_of(places[i])
}

/// The place to take of `places`.
pub open spec fn most_populated(places: Seq<GeoLocation>) -> GeoLocation {
    places[choose|i: int| is_most_populated(places, i)]
}

/// There is exactly one place to take wherever there are places.
pub proof fn most_populated_is_unique(places: Seq<GeoLocation>, i: int, j: int)
    requires
        is_most_populated(places, i),
        is_most_populated(places, j),
    ensures
        i == j,
{
    assert(population_of(places[i]) == population_of(places[j]));
}

/// The place to take is one of the places that were found; nowhere among them do more people
/// live, and it comes before all others where as many do.
pub proof fn most_populated_is_a_result(places: Seq<GeoLocation>)
    requires
        places.len() > 0,
    ensures
        places.contains(most_populated(places)),
        exists|i: int|
            #![trigger is_most_populated(places, i)]
            is_most_populated(places, i) && places[i] == most_populated(places),
        forall|place: GeoLocation| #[trigger]
            places.contains(place) ==> population_of(place) <= population_of(most_populated(places)),
{
    most_populated_exists(places);
    let i = choose|i: int| is_most_populated(places, i);
    assert(places[i] == most_populated(places));
}

/// Wherever there are places, there is one to take.
proof fn most_populated_exists(places: Seq<GeoLocation>)
    requires
        places.len() > 0,
    ensures
        exists|i: int| is_most_populated(places, i),
    decreases places.len(),
{
    if places.len() == 1 {
        assert(is_most_populated(places, 0));
    } else {
        let fewer = places.drop_last();
        most_populated_exists(fewer);
        let i = choose|i: int| is_most_populated(fewer, i);
        assert(forall|j: int| 0 <= j < fewer.len() ==> fewer[j] == places[j]);
        let last = places.len() - 1;
        if population_of(places[last]) > population_of(fewer[i]) {
            assert(is_most_populated(places, last)) by {
                assert forall|j: int| 0 <= j < last implies population_of(#[trigger] places[j])
                    < population_of(places[last]) by {
                    assert(fewer[j] == places[j]);
                }
            }
        } else {
            assert(is_most_populated(places, i)) by {
                assert forall|j: int| 0 <= j < places.len() implies population_of(
                    #[trigger] places[j],
                ) <= population_of(places[i]) by {
                    if j < last {
                        assert(fewer[j] == places[j]);
                    }
                }
            }
        }
    }
}

/// The place to take of `places`, which avoids tiny hamlets of the same name.
pub fn take_most_populated(places: Vec<GeoLocation>) -> (place: GeoLocation)
    requires
        places@.len() > 0,
    ensures
        place == most_populated(places@),
{
    let mut places = places;
    let mut best: usize = 0;
    let mut i: usize = 1;
    let ghost all = places@;
    while i < places.len()
        invariant
            places@ == all,
            best < i <= all.len(),
            forall|j: int|
                0 <= j < i ==> population_of(#[trigger] all[j]) <= population_of(all[best as int]),
            forall|j: int|
                0 <= j < best ==> population_of(#[trigger] all[j]) < population_of(
                    all[best as int],
                ),
        decreases all.len() - i,
    {
        let people: u64 = places[i].population.unwrap_or(0);
        let most: u64 = places[best].population.unwrap_or(0);
        if people > most {
            best = i;
        }
        i = i + 1;
    }
    proof {
        assert(is_most_populated(all, best as int));
        let chosen = choose|k: int| is_most_populated(all, k);
        most_populated_is_unique(all, best as int, chosen);
    }
    places.swap_remove(best)
}

/// A search for the place that a city name means, as far as it has come.
#[derive(Debug)]
pub struct GeocodeSearch {
    /// The name that is searched for.
    city: String,
    /// Which of the languages is searched now, counted from zero.
    attempt: usize,
    /// What went wrong last, if anything did.
    last_error: Option<String>,
}

/// What came back from one search.
#[derive(Debug)]
pub enum SearchReply {
    /// The search could not be made, or its answer not be read, for the reason given.
    Failed(String),
    /// The places that were found; there may be no list at all.
    Answered(Option<Vec<GeoLocation>>),
}

/// What follows after one search.
#[derive(Debug)]
pub enum SearchStep {
    /// This is the place.
    Found(GeoLocation),
    /// Search on in the next language.
    Again(GeocodeSearch),
    /// No language is left; the reason in words.
    Exhausted(String),
}

/// What a [`GeocodeSearch`] stands for.
pub struct SearchModel {
    pub city: Seq<char>,
    pub attempt: nat,
    pub last_error: Option<Seq<char>>,
}

/// What a [`SearchStep`] stands for.
pub enum SearchStepModel {
    Found(GeoLocation),
    Again(SearchModel),
    Exhausted(Seq<char>),
}

impl View for GeocodeSearch {
    type V = SearchModel;

    closed spec fn view(&self) -> SearchModel {
        SearchModel {
            city: self.city@,
            attempt: self.attempt as nat,
            last_error: text::owned(self.last_error),
        }
    }
}

impl View for SearchStep {
    type V = SearchStepModel;

    open spec fn view(&self) -> SearchStepModel {
        match *self {
            SearchStep::Found(place) => SearchStepModel::Found(place),
            SearchStep::Again(search) => SearchStepModel::Again(search@),
            SearchStep::Exhausted(reason) => SearchStepModel::Exhausted(reason@),
        }
    }
}

/// The places that `reply` brings.
pub open spec fn places_in(reply: SearchReply) -> Seq<GeoLocation> {
    match reply {
        SearchReply::Answered(Some(places)) => places@,
        _ => seq![],
    }
}

impl SearchModel {
    /// Whether a search is due: there is a language left to search in.
    pub open spec fn due(self) -> bool {
        self.attempt < search_languages(self.city).len()
    }

    /// The address of the search that is due.
    pub open spec fn url(self) -> Seq<char> {
        url::search_url_of(
            url::percent_encoded(utf8::encode_utf8(self.city)),
            search_languages(self.city)[self.attempt as int],
        )
    }

    /// The last thing that went wrong, once `reply` is in.
    pub open spec fn error_after(self, reply: SearchReply) -> Option<Seq<char>> {
        match reply {
            SearchReply::Failed(reason) => Some(reason@),
            SearchReply::Answered(_) => self.last_error,
        }
    }

    /// What follows once `reply` is in: the place to take of those that were found; without
    /// any, the search in the next language; and the end of the search after the last one.
    pub open spec fn after(self, reply: SearchReply) -> SearchStepModel {
        let next = SearchModel {
            city: self.city,
            attempt: self.attempt + 1,
            last_error: self.error_after(reply),
        };
        if places_in(reply).len() > 0 {
            SearchStepModel::Found(most_populated(places_in(reply)))
        } else if next.due() {
            SearchStepModel::Again(next)
        } else {
            SearchStepModel::Exhausted(exhausted_words(next.last_error))
        }
    }
}

/// The words for a search that found no place, with what went wrong last.
pub open spec fn exhausted_words(last_error: Option<Seq<char>>) -> Seq<char> {
    match last_error {
        Some(reason) => "no results from open-meteo geocoding"@ + ": "@ + reason,
        None => "no results from open-meteo geocoding"@,
    }
}

/// The words for a search that found no place.
fn exhausted_message(last_error: &Option<String>) -> (words: String)
    ensures
        words@ == exhausted_words(text::owned(*last_error)),
{
    let mut words = "no results from open-meteo geocoding".to_string();
    if let Some(reason) = last_error {
        words.append(": ");
        words.append(reason.as_str());
    }
    words
}

/// How many languages `city` is searched in.
fn language_count(city: &str) -> (count: usize)
    ensures
        count == search_languages(city@).len(),
{
    if city.is_ascii() {
        1
    } else {
        7
    }
}

/// The language of search number `attempt` for `city`, counted from zero.
fn language_of(city: &str, attempt: usize) -> (lang: &'static str)
    requires
        attempt < search_languages(city@).len(),
    ensures
        lang@ == search_languages(city@)[attempt as int],
{
    match attempt {
        0 => "",
        1 => "zh",
        2 => "ja",
        3 => "ko",
        4 => "ru",
        5 => "ar",
        _ => "hi",
    }
}

impl GeocodeSearch {
    /// A search is kept only as long as it is due.
    #[verifier::type_invariant]
    spec fn is_due(self) -> bool {
        self@.due()
    }

    /// Begins the search for `city` with the plain search.
    pub fn start(city: String) -> (search: Self)
        ensures
            search@ == (SearchModel { city: city@, attempt: 0, last_error: None }),
    {
        GeocodeSearch { city, attempt: 0, last_error: None }
    }

    /// The name that is searched for.
    pub fn city(&self) -> (city: &str)
        ensures
            city@ == self@.city,
    {
        self.city.as_str()
    }

    /// The address of the search that is due.
    pub fn url(&self) -> (url: String)
        ensures
            url@ == self@.url(),
    {
        proof {
            use_type_invariant(self);
        }
        let encoded = url::percent_encode(self.city.as_str());
        let lang = language_of(self.city.as_str(), self.attempt);
        url::search_url(encoded.as_str(), lang)
    }

    /// Takes the reply to the search that was due, and says what follows.
    pub fn advance(self, reply: SearchReply) -> (step: SearchStep)
        ensures
            step@ == self@.after(reply),
    {
        proof {
            use_type_invariant(&self);
        }
        let mut last_error = self.last_error;
        match reply {
            SearchReply::Failed(reason) => {
                last_error = Some(reason);
            },
            SearchReply::Answered(found) => {
                if let Some(places) = found {
                    if places.len() > 0 {
                        return SearchStep::Found(take_most_populated(places));
                    }
                }
            },
        }
        let next: usize = self.attempt + 1;
        if next < language_count(self.city.as_str()) {
            SearchStep::Again(GeocodeSearch { city: self.city, attempt: next, last_error })
        } else {
            SearchStep::Exhausted(exhausted_message(&last_error))
        }
    }
}

/// A name of ASCII characters is searched once, and any other name at most seven times, the
/// plain search first.
pub proof fn searches_are_few(city: Seq<char>)
    ensures
        search_languages(city)[0] == ""@,
        utf8::is_ascii_chars(city) ==> search_languages(city).len() == 1,
        !utf8::is_ascii_chars(city) ==> search_languages(city).len() == 7,
{
}

/// Every search goes on for the same name, and one language further.
pub proof fn searches_move_on(search: SearchModel, reply: SearchReply)
    requires
        search.due(),
    ensures
        search.after(reply) matches SearchStepModel::Again(next) ==> next.due() && next.city
            == search.city && next.attempt == search.attempt + 1,
{
}

} // verus!
