//! Laws of the parts of the day.

use crate::condition;
use crate::forecast::{self, DailyWeather, HourlyWeather};
use crate::json::{self, Json};
use crate::periods;
use serde_json::Value;
use vstd::prelude::*;
use vstd::utf8;

verus! {

/// Lists, options and entries of JSON values hold what their parts hold.
pub proof fn json_parts_are_kept(
    values: Seq<Value>,
    value: Option<Value>,
    entries: Map<Seq<char>, Json>,
    key: Seq<char>,
    added: Json,
)
    ensures
        json::no_entries() == Map::<Seq<char>, Json>::empty(),
        json::json_of_each(values).len() == values.len(),
        forall|i: int|
            0 <= i < values.len() ==> #[trigger] json::json_of_each(values)[i] == json::json_of(
                values[i],
            ),
        value matches Some(v) ==> json::json_of_option(value) == Some(json::json_of(v)),
        value is None ==> json::json_of_option(value) is None,
        json::with_entry(entries, key, None) == entries,
        json::with_entry(entries, key, Some(added)) == entries.insert(key, added),
{
}

/// A text and an integer of 64 bits can travel as canonical JSON, and no other number can.
pub proof fn canonical_leaves_are_these(n: int, t: Seq<char>)
    ensures
        json::canonical(Json::Text(t)),
        json::canonical(Json::Number(n)) <==> -0x8000_0000_0000_0000 <= n <= 0x7fff_ffff_ffff_ffff,
        !json::canonical(Json::Other),
{
}

/// The four keys of a part of the day differ.
proof fn keys_of_a_period_differ()
    ensures
        "slot"@ != "temp_c"@ && "slot"@ != "condition"@ && "slot"@ != "precipitation_probability"@,
        "temp_c"@ != "condition"@ && "temp_c"@ != "precipitation_probability"@,
        "condition"@ != "precipitation_probability"@,
{
    reveal_strlit("slot");
    reveal_strlit("temp_c");
    reveal_strlit("condition");
    reveal_strlit("precipitation_probability");
    assert("slot"@.len() == 4 && "temp_c"@.len() == 6 && "condition"@.len() == 9);
    assert("precipitation_probability"@.len() == 25);
}

/// Where the entry `i` of a forecast is an hour of the day `date`, and no other hour of that day
/// is closer to the hour `target`, nor as close and earlier in the list, it stands for the hour
/// `target`.
proof fn it_is_the_nearest(hourly: &HourlyWeather, date: Seq<char>, target: i32, i: int)
    requires
        0 <= i < hourly.time@.len(),
        date.is_prefix_of(hourly.time@[i]@),
        forecast::local_hour(utf8::encode_utf8(hourly.time@[i]@)) is Some,
        ({
            let hour = forecast::local_hour(utf8::encode_utf8(hourly.time@[i]@))->Some_0;
            -i32::MAX < hour - target < i32::MAX
        }),
        forall|j: int|
            0 <= j < hourly.time@.len() && date.is_prefix_of((#[trigger] hourly.time@[j])@)
                && forecast::local_hour(utf8::encode_utf8(hourly.time@[j]@)) is Some ==> {
                let near = forecast::local_hour(utf8::encode_utf8(hourly.time@[i]@))->Some_0
                    - target;
                let far = forecast::local_hour(utf8::encode_utf8(hourly.time@[j]@))->Some_0
                    - target;
                let between = if near < 0 {
                    -near
                } else {
                    near
                };
                let other = if far < 0 {
                    -far
                } else {
                    far
                };
                between < other || between == other && i <= j
            },
    ensures
        periods::nearest(hourly, date, target) == Some(i),
{
    assert(periods::candidate(hourly, date, target, i));
    assert forall|j: int| #[trigger] periods::candidate(hourly, date, target, j) implies {
        let between = periods::distance(hourly, target, i);
        let other = periods::distance(hourly, target, j);
        between < other || between == other && i <= j
    } by {
        assert(hourly.time@[j] == hourly.time@[j]);
    }
    assert(periods::is_nearest(hourly, date, target, i));
    let found = choose|k: int| periods::is_nearest(hourly, date, target, k);
    periods::nearest_is_unique(hourly, date, target, i, found);
}

/// Everything that a card says of a part of the day comes from one entry of the forecast: of
/// the hours of the day `date` that are closest to `target`, the first. Its temperature, the
/// condition of its code and its chance of rain stand under their keys, beside the name of the
/// part of the day; without a code the condition is `sunny`, without a chance of rain there is
/// none, and without a temperature the part of the day is left out.
pub proof fn a_period_comes_from_the_nearest_hour(
    hourly: &HourlyWeather,
    date: Seq<char>,
    slot: Seq<char>,
    target: i32,
    i: int,
)
    requires
        0 <= i < hourly.time@.len(),
        date.is_prefix_of(hourly.time@[i]@),
        forecast::local_hour(utf8::encode_utf8(hourly.time@[i]@)) is Some,
        ({
            let hour = forecast::local_hour(utf8::encode_utf8(hourly.time@[i]@))->Some_0;
            -i32::MAX < hour - target < i32::MAX
        }),
        forall|j: int|
            0 <= j < hourly.time@.len() && date.is_prefix_of((#[trigger] hourly.time@[j])@)
                && forecast::local_hour(utf8::encode_utf8(hourly.time@[j]@)) is Some ==> {
                let near = forecast::local_hour(utf8::encode_utf8(hourly.time@[i]@))->Some_0
                    - target;
                let far = forecast::local_hour(utf8::encode_utf8(hourly.time@[j]@))->Some_0
                    - target;
                let between = if near < 0 {
                    -near
                } else {
                    near
                };
                let other = if far < 0 {
                    -far
                } else {
                    far
                };
                between < other || between == other && i <= j
            },
    ensures
        i >= hourly.temperature_2m@.len() ==> periods::period_model(hourly, date, slot, target)
            is None,
        i < hourly.temperature_2m@.len() ==> {
            &&& periods::period_model(hourly, date, slot, target) matches Some(
                Json::Object(entries),
            )
            &&& entries.contains_key("slot"@) && entries["slot"@] == Json::Text(slot)
            &&& entries.contains_key("temp_c"@) && entries["temp_c"@] == Json::Number(
                hourly.temperature_2m@[i].as_integer() as int,
            )
            &&& entries.contains_key("condition"@)
            &&& i < hourly.weather_code@.len() ==> entries["condition"@] == Json::Text(
                condition::condition_of(hourly.weather_code@[i]),
            )
            &&& i >= hourly.weather_code@.len() ==> entries["condition"@] == Json::Text("sunny"@)
            &&& entries.contains_key("precipitation_probability"@) <==> i
                < hourly.precipitation_probability@.len()
            &&& i < hourly.precipitation_probability@.len()
                ==> entries["precipitation_probability"@] == Json::Number(
                hourly.precipitation_probability@[i].as_integer() as int,
            )
            &&& forall|key: Seq<char>| #[trigger]
                entries.contains_key(key) ==> key == "slot"@ || key == "temp_c"@ || key
                    == "condition"@ || key == "precipitation_probability"@
        },
{
    it_is_the_nearest(hourly, date, target, i);
    keys_of_a_period_differ();
}

/// A part of the day is left out where no hour of that day can stand for it.
pub proof fn no_hour_means_no_period(
    hourly: &HourlyWeather,
    date: Seq<char>,
    slot: Seq<char>,
    target: i32,
)
    requires
        forall|j: int|
            0 <= j < hourly.time@.len() && date.is_prefix_of((#[trigger] hourly.time@[j])@)
                && forecast::local_hour(utf8::encode_utf8(hourly.time@[j]@)) is Some ==> {
                let hour = forecast::local_hour(utf8::encode_utf8(hourly.time@[j]@))->Some_0;
                hour - target >= i32::MAX || target - hour >= i32::MAX
            },
    ensures
        periods::period_model(hourly, date, slot, target) is None,
{
    assert forall|j: int| !(#[trigger] periods::candidate(hourly, date, target, j)) by {
        if periods::candidate(hourly, date, target, j) {
            assert(hourly.time@[j] == hourly.time@[j]);
        }
    }
    periods::nearest_exists_among_candidates(hourly, date, target);
}

/// Some hour stands for a part of the day wherever an hour of that day can.
pub proof fn an_hour_means_a_nearest_hour(
    hourly: &HourlyWeather,
    date: Seq<char>,
    target: i32,
    j: int,
)
    requires
        0 <= target <= 23,
        0 <= j < hourly.time@.len(),
        date.is_prefix_of(hourly.time@[j]@),
        forecast::local_hour(utf8::encode_utf8(hourly.time@[j]@)) is Some,
    ensures
        periods::nearest(hourly, date, target) matches Some(i) && 0 <= i < hourly.time@.len()
            && date.is_prefix_of(hourly.time@[i]@),
{
    forecast::local_hours_are_small(utf8::encode_utf8(hourly.time@[j]@));
    assert(periods::candidate(hourly, date, target, j));
    periods::nearest_exists_among_candidates(hourly, date, target);
}

/// Which hour stands for a part of the day depends on the times alone, and what a card says of
/// it on that hour alone: two forecasts with the same times, and with the same temperature, code
/// and chance of rain at that hour, give the same, whatever they say of the other hours.
pub proof fn other_hours_do_not_matter(
    hourly: &HourlyWeather,
    other: &HourlyWeather,
    date: Seq<char>,
    slot: Seq<char>,
    target: i32,
)
    requires
        other.time@ == hourly.time@,
        periods::nearest(hourly, date, target) matches Some(i) ==> {
            &&& i < hourly.temperature_2m@.len() <==> i < other.temperature_2m@.len()
            &&& i < hourly.temperature_2m@.len() ==> other.temperature_2m@[i]
                == hourly.temperature_2m@[i]
            &&& i < hourly.weather_code@.len() <==> i < other.weather_code@.len()
            &&& i < hourly.weather_code@.len() ==> other.weather_code@[i] == hourly.weather_code@[i]
            &&& i < hourly.precipitation_probability@.len() <==> i
                < other.precipitation_probability@.len()
            &&& i < hourly.precipitation_probability@.len() ==> other.precipitation_probability@[i]
                == hourly.precipitation_probability@[i]
        },
    ensures
        periods::nearest(other, date, target) == periods::nearest(hourly, date, target),
        periods::period_model(other, date, slot, target) == periods::period_model(
            hourly,
            date,
            slot,
            target,
        ),
{
    periods::nearest_exists_among_candidates(hourly, date, target);
    periods::nearest_exists_among_candidates(other, date, target);
    assert forall|i: int| #[trigger] periods::candidate(hourly, date, target, i) implies (
    periods::candidate(other, date, target, i) && periods::distance(other, target, i)
        == periods::distance(hourly, target, i)) by {
    }
    assert forall|i: int| #[trigger] periods::candidate(other, date, target, i) implies (
    periods::candidate(hourly, date, target, i) && periods::distance(other, target, i)
        == periods::distance(hourly, target, i)) by {
    }
    if periods::nearest(hourly, date, target) is Some {
        let i = periods::nearest(hourly, date, target)->Some_0;
        let k = periods::nearest(other, date, target)->Some_0;
        assert(periods::candidate(other, date, target, i));
        assert(periods::is_nearest(other, date, target, i));
        periods::nearest_is_unique(other, date, target, i, k);
        assert(0 <= i);
    } else if periods::nearest(other, date, target) is Some {
        let k = periods::nearest(other, date, target)->Some_0;
        assert(periods::candidate(hourly, date, target, k));
    }
}

/// The distances to an hour fit where each hour of the day lies within the range of 32 bits.
pub proof fn distances_fit_so(hourly: &HourlyWeather, date: Seq<char>, target: i32)
    ensures
        periods::distances_fit(hourly, date, target) <==> forall|j: int|
            0 <= j < hourly.time@.len() && date.is_prefix_of((#[trigger] hourly.time@[j])@)
                && forecast::local_hour(utf8::encode_utf8(hourly.time@[j]@)) is Some ==> {
                let hour = forecast::local_hour(utf8::encode_utf8(hourly.time@[j]@))->Some_0;
                -i32::MAX <= hour - target <= i32::MAX
            },
{
    if periods::distances_fit(hourly, date, target) {
        assert forall|j: int|
            0 <= j < hourly.time@.len() && date.is_prefix_of((#[trigger] hourly.time@[j])@)
                && forecast::local_hour(
                utf8::encode_utf8(hourly.time@[j]@),
            ) is Some implies {
            let hour = forecast::local_hour(utf8::encode_utf8(hourly.time@[j]@))->Some_0;
            -i32::MAX <= hour - target <= i32::MAX
        } by {
            assert(periods::on_date(hourly, date, j));
        }
    } else {
        let j = choose|j: int| #[trigger]
            periods::on_date(hourly, date, j) && periods::distance(hourly, target, j) > i32::MAX;
        assert(hourly.time@[j] == hourly.time@[j]);
    }
}

/// A card shows the morning at 8, noon at 13 and the night at 20 of the first day of the
/// forecast, in this order, each exactly where there is something to say of it; and nothing
/// where the forecast has no day.
pub proof fn a_day_has_these_parts(hourly: &HourlyWeather, daily: &DailyWeather)
    ensures
        daily.time@.len() == 0 ==> periods::periods_model(hourly, daily).len() == 0,
        daily.time@.len() > 0 ==> {
            let date = daily.time@[0]@;
            let shown = periods::periods_model(hourly, daily);
            match (
                periods::period_model(hourly, date, "morning"@, 8),
                periods::period_model(hourly, date, "noon"@, 13),
                periods::period_model(hourly, date, "night"@, 20),
            ) {
                (Some(morning), Some(noon), Some(night)) => shown == seq![morning, noon, night],
                (Some(morning), Some(noon), None) => shown == seq![morning, noon],
                (Some(morning), None, Some(night)) => shown == seq![morning, night],
                (None, Some(noon), Some(night)) => shown == seq![noon, night],
                (Some(morning), None, None) => shown == seq![morning],
                (None, Some(noon), None) => shown == seq![noon],
                (None, None, Some(night)) => shown == seq![night],
                (None, None, None) => shown.len() == 0,
            }
        },
{
    if daily.time@.len() > 0 {
        let date = daily.time@[0]@;
        let first = periods::period_model(hourly, date, "morning"@, 8);
        let second = periods::period_model(hourly, date, "noon"@, 13);
        let third = periods::period_model(hourly, date, "night"@, 20);
        let all = seq![first, second, third];
        assert(all.drop_last() =~= seq![first, second]);
        assert(all.drop_last().drop_last() =~= seq![first]);
        reveal_with_fuel(periods::those_present, 4);
    }
}

} // verus!
