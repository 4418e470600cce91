//! Laws of the search for a place.

use crate::forecast::GeoLocation;
use crate::geocode::{
    self, GeocodeSearch, SearchModel, SearchReply, SearchStep, SearchStepModel,
};
use crate::url;
use vstd::prelude::*;
use vstd::utf8;

verus! {

/// Of the places that were found, the one that is taken has a population that no other
/// exceeds, and every place before it has a smaller one. An unknown population counts as
/// nobody.
pub proof fn the_place_taken_has_the_largest_population(places: Seq<GeoLocation>)
    requires
        places.len() > 0,
    ensures
        exists|i: int|
            {
                &&& 0 <= i < places.len()
                &&& #[trigger] places[i] == geocode::most_populated(places)
                &&& forall|j: int|
                    0 <= j < i ==> (#[trigger] places[j]).population.unwrap_or(0)
                        < places[i].population.unwrap_or(0)
            },
        forall|j: int|
            0 <= j < places.len() ==> (#[trigger] places[j]).population.unwrap_or(0)
                <= geocode::most_populated(places).population.unwrap_or(0),
{
    geocode::most_populated_is_a_result(places);
    let i = choose|i: int|
        #![trigger geocode::is_most_populated(places, i)]
        geocode::is_most_populated(places, i) && places[i] == geocode::most_populated(places);
    assert forall|j: int| 0 <= j < places.len() implies (#[trigger] places[j]).population.unwrap_or(
        0,
    ) <= places[i].population.unwrap_or(0) by {
        assert(geocode::population_of(places[j]) <= geocode::population_of(places[i]));
    }
    assert forall|j: int| 0 <= j < i implies (#[trigger] places[j]).population.unwrap_or(0)
        < places[i].population.unwrap_or(0) by {
        assert(geocode::population_of(places[j]) < geocode::population_of(places[i]));
    }
}

/// A place with more people than every other is taken, wherever it stands in the list.
pub proof fn a_larger_place_is_taken(places: Seq<GeoLocation>, i: int)
    requires
        0 <= i < places.len(),
        forall|j: int|
            0 <= j < places.len() && j != i ==> (#[trigger] places[j]).population.unwrap_or(0)
                < places[i].population.unwrap_or(0),
    ensures
        geocode::most_populated(places) == places[i],
{
    the_place_taken_has_the_largest_population(places);
    assert(places[i].population.unwrap_or(0) <= geocode::most_populated(
        places,
    ).population.unwrap_or(0));
}

/// Places are compared by the number of people that is known of them, whatever that number
/// is.
pub proof fn places_are_compared_by_their_people(place: GeoLocation)
    ensures
        place.population matches Some(people) ==> geocode::population_of(place) == people,
        place.population is None ==> geocode::population_of(place) == 0,
{
}

/// A place without more people than the one that is taken changes nothing behind it.
pub proof fn smaller_places_behind_change_nothing(places: Seq<GeoLocation>, place: GeoLocation)
    requires
        places.len() > 0,
        place.population.unwrap_or(0) <= geocode::most_populated(places).population.unwrap_or(0),
    ensures
        geocode::most_populated(places.push(place)) == geocode::most_populated(places),
{
    geocode::most_populated_is_a_result(places);
    let i = choose|i: int|
        #![trigger geocode::is_most_populated(places, i)]
        geocode::is_most_populated(places, i) && places[i] == geocode::most_populated(places);
    let longer = places.push(place);
    assert forall|j: int| 0 <= j < longer.len() implies geocode::population_of(#[trigger] longer[j])
        <= geocode::population_of(longer[i]) by {
        if j < places.len() {
            assert(longer[j] == places[j]);
        }
    }
    assert forall|j: int| 0 <= j < i implies geocode::population_of(#[trigger] longer[j])
        < geocode::population_of(longer[i]) by {
        assert(longer[j] == places[j]);
    }
    assert(geocode::is_most_populated(longer, i));
    let k = choose|k: int| geocode::is_most_populated(longer, k);
    geocode::most_populated_is_unique(longer, i, k);
}

/// The address of a search names the whole city. The first search names no language, and those
/// that follow it name Chinese, Japanese, Korean, Russian, Arabic and Hindi, in this order.
pub proof fn searches_go_through_the_languages(search: SearchModel)
    requires
        search.due(),
    ensures
        ({
            let plain = "https://geocoding-api.open-meteo.com/v1/search?name="@
                + url::percent_encoded(utf8::encode_utf8(search.city)) + "&count=5"@;
            &&& search.attempt == 0 ==> search.url() == plain
            &&& search.attempt == 1 ==> search.url() == plain + "&language="@ + "zh"@
            &&& search.attempt == 2 ==> search.url() == plain + "&language="@ + "ja"@
            &&& search.attempt == 3 ==> search.url() == plain + "&language="@ + "ko"@
            &&& search.attempt == 4 ==> search.url() == plain + "&language="@ + "ru"@
            &&& search.attempt == 5 ==> search.url() == plain + "&language="@ + "ar"@
            &&& search.attempt == 6 ==> search.url() == plain + "&language="@ + "hi"@
        }),
        search.attempt <= 6,
{
    reveal_strlit("");
    reveal_strlit("zh");
    reveal_strlit("ja");
    reveal_strlit("ko");
    reveal_strlit("ru");
    reveal_strlit("ar");
    reveal_strlit("hi");
    assert("zh"@.len() == 2 && "ja"@.len() == 2 && "ko"@.len() == 2);
    assert("ru"@.len() == 2 && "ar"@.len() == 2 && "hi"@.len() == 2);
}

/// A character beyond ASCII comes behind the last character of ASCII.
proof fn beyond_ascii(c: char)
    requires
        !('\0' <= c <= '\u{7f}'),
    ensures
        c > '\u{7f}',
{
    assert(c as u32 >= 0);
}

/// The first search is always due; those that follow it are due for a name beyond ASCII, and
/// there are six of them.
pub proof fn searches_are_due_so(search: SearchModel)
    ensures
        search.due() <==> {
            ||| search.attempt == 0
            ||| search.attempt <= 6 && exists|i: int|
                0 <= i < search.city.len() && #[trigger] search.city[i] > '\u{7f}'
        },
{
    if !utf8::is_ascii_chars(search.city) {
        let i = choose|i: int|
            0 <= i < search.city.len() && !('\0' <= #[trigger] search.city[i] <= '\u{7f}');
        beyond_ascii(search.city[i]);
    }
}

/// A reply with places ends the search, with one of them; so nothing that went wrong before
/// matters. Without a place the same city is searched in the next language. Of what went wrong,
/// the last is kept: the reason of a reply that failed takes the place of an earlier one, and
/// an empty answer leaves it.
pub proof fn replies_are_answered_so(search: SearchModel, reply: SearchReply)
    ensures
        match reply {
            SearchReply::Answered(Some(places)) if places@.len() > 0 => search.after(reply)
                == SearchStepModel::Found(geocode::most_populated(places@)),
            _ => {
                let error = match reply {
                    SearchReply::Failed(reason) => Some(reason@),
                    SearchReply::Answered(_) => search.last_error,
                };
                let next = SearchModel {
                    city: search.city,
                    attempt: search.attempt + 1,
                    last_error: error,
                };
                if next.due() {
                    search.after(reply) == SearchStepModel::Again(next)
                } else {
                    match error {
                        Some(reason) => search.after(reply) == SearchStepModel::Exhausted(
                            "no results from open-meteo geocoding"@ + ": "@ + reason,
                        ),
                        None => search.after(reply) == SearchStepModel::Exhausted(
                            "no results from open-meteo geocoding"@,
                        ),
                    }
                }
            },
        },
{
}

/// What follows a search stands for what it holds.
pub proof fn search_steps_stand_for_what_they_hold(
    place: GeoLocation,
    search: GeocodeSearch,
    reason: String,
)
    ensures
        SearchStep::Found(place)@ == SearchStepModel::Found(place),
        SearchStep::Again(search)@ == SearchStepModel::Again(search@),
        SearchStep::Exhausted(reason)@ == SearchStepModel::Exhausted(reason@),
{
}

} // verus!
