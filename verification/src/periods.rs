//! The parts of the day that a card shows.

use crate::condition;
use crate::forecast::{self, DailyWeather, HourlyWeather};
use crate::json::{self, Json};
use crate::reading;
use crate::text;
use serde_json::Value;
use vstd::prelude::*;
use vstd::utf8;

verus! {

/// The hour of day of the entry `i` of `hourly`.
pub open spec fn hour_at(hourly: &HourlyWeather, i: int) -> Option<i32> {
    forecast::local_hour(utf8::encode_utf8(hourly.time@[i]@))
}

/// Whether the entry `i` of `hourly` is an hour of the day `date`.
pub open spec fn on_date(hourly: &HourlyWeather, date: Seq<char>, i: int) -> bool {
    &&& 0 <= i < hourly.time@.len()
    &&& date.is_prefix_of(hourly.time@[i]@)
    &&& hour_at(hourly, i) is Some
}

/// The hours between the entry `i` of `hourly` and the hour `target`.
pub open spec fn distance(hourly: &HourlyWeather, target: i32, i: int) -> int {
    let hour = hour_at(hourly, i)->Some_0;
    if hour >= target {
        hour - target
    } else {
        target - hour
    }
}

/// Whether the entry `i` of `hourly` may stand for the hour `target` of the day `date`: it is
/// an hour of that day, and closer than the greatest integer of 32 bits.
pub open spec fn candidate(hourly: &HourlyWeather, date: Seq<char>, target: i32, i: int) -> bool {
    on_date(hourly, date, i) && distance(hourly, target, i) < i32::MAX
}

/// Whether the entry `i` of `hourly` is the one that stands for the hour `target` of the day
/// `date`: of the candidates that are closest to it, the first.
pub open spec fn is_nearest(hourly: &HourlyWeather, date: Seq<char>, target: i32, i: int) -> bool {
    &&& candidate(hourly, date, target, i)
    &&& forall|j: int| #[trigger]
        candidate(hourly, date, target, j) ==> distance(hourly, target, i) <= distance(
            hourly,
            target,
            j,
        )
    &&& forall|j: int| #[trigger]
        candidate(hourly, date, target, j) && distance(hourly, target, j) == distance(
            hourly,
            target,
            i,
        ) ==> i <= j
}

/// The entry of `hourly` that stands for the hour `target` of the day `date`, if there is one.
pub open spec fn nearest(hourly: &HourlyWeather, date: Seq<char>, target: i32) -> Option<int> {
    if exists|i: int| is_nearest(hourly, date, target, i) {
        Some(choose|i: int| is_nearest(hourly, date, target, i))
    } else {
        None
    }
}

/// Whether the distance of every hour of the day `date` to the hour `target` is an integer of
/// 32 bits.
pub open spec fn distances_fit(hourly: &HourlyWeather, date: Seq<char>, target: i32) -> bool {
    forall|i: int| #[trigger]
        on_date(hourly, date, i) ==> distance(hourly, target, i) <= i32::MAX
}

/// What a card says of the hour at index `i` of `hourly`, under the name `slot`. The chance of
/// rain is left out where the forecast has none for that hour.
pub open spec fn period_entries(hourly: &HourlyWeather, slot: Seq<char>, i: int) -> Map<
    Seq<char>,
    Json,
> {
    json::with_entry(
        map![
            "slot"@ => Json::Text(slot),
            "temp_c"@ => Json::Number(hourly.temperature_2m@[i].as_integer() as int),
            "condition"@ => Json::Text(
                condition::condition_or_sunny(
                    if i < hourly.weather_code@.len() {
                        Some(hourly.weather_code@[i])
                    } else {
                        None
                    },
                ),
            ),
        ],
        "precipitation_probability"@,
        if i < hourly.precipitation_probability@.len() {
            Some(Json::Number(hourly.precipitation_probability@[i].as_integer() as int))
        } else {
            None
        },
    )
}

/// What a card says of the hour `target` of the day `date`, under the name `slot`: nothing
/// where no hour stands for it, or where that hour has no temperature.
pub open spec fn period_model(
    hourly: &HourlyWeather,
    date: Seq<char>,
    slot: Seq<char>,
    target: i32,
) -> Option<Json> {
    match nearest(hourly, date, target) {
        Some(i) => if i < hourly.temperature_2m@.len() {
            Some(Json::Object(period_entries(hourly, slot, i)))
        } else {
            None
        },
        None => None,
    }
}

/// No two entries stand for the same hour.
pub proof fn nearest_is_unique(
    hourly: &HourlyWeather,
    date: Seq<char>,
    target: i32,
    i: int,
    j: int,
)
    requires
        is_nearest(hourly, date, target, i),
        is_nearest(hourly, date, target, j),
    ensures
        i == j,
{
    assert(candidate(hourly, date, target, i));
    assert(candidate(hourly, date, target, j));
}

/// Some entry stands for an hour exactly where there is a candidate for it.
pub proof fn nearest_exists_among_candidates(hourly: &HourlyWeather, date: Seq<char>, target: i32)
    ensures
        nearest(hourly, date, target) is Some <==> exists|i: int|
            candidate(hourly, date, target, i),
        nearest(hourly, date, target) matches Some(i) ==> is_nearest(hourly, date, target, i),
{
    if exists|i: int| candidate(hourly, date, target, i) {
        let i = choose|i: int| candidate(hourly, date, target, i);
        nearest_below(hourly, date, target, i);
    }
}

/// Where `i` is a candidate, some entry stands for the hour.
proof fn nearest_below(hourly: &HourlyWeather, date: Seq<char>, target: i32, i: int)
    requires
        candidate(hourly, date, target, i),
    ensures
        exists|k: int| is_nearest(hourly, date, target, k),
    decreases distance(hourly, target, i), i,
{
    if !is_nearest(hourly, date, target, i) {
        if exists|j: int| #[trigger]
            candidate(hourly, date, target, j) && distance(hourly, target, j) < distance(
                hourly,
                target,
                i,
            ) {
            let j = choose|j: int| #[trigger]
                candidate(hourly, date, target, j) && distance(hourly, target, j) < distance(
                    hourly,
                    target,
                    i,
                );
            nearest_below(hourly, date, target, j);
        } else {
            let j = choose|j: int| #[trigger]
                candidate(hourly, date, target, j) && distance(hourly, target, j) == distance(
                    hourly,
                    target,
                    i,
                ) && j < i;
            nearest_below(hourly, date, target, j);
        }
    }
}

/// One more hour at the end of a forecast changes nothing of what stands for the hour `target`
/// where it is no nearer to it than what stood there before.
pub proof fn farther_hours_change_no_pick(
    hourly: &HourlyWeather,
    longer: &HourlyWeather,
    date: Seq<char>,
    target: i32,
)
    requires
        longer.time@ == hourly.time@.push(longer.time@.last()),
        candidate(longer, date, target, hourly.time@.len() as int) ==> (nearest(
            hourly,
            date,
            target,
        ) matches Some(i) && distance(hourly, target, i) <= distance(
            longer,
            target,
            hourly.time@.len() as int,
        )),
    ensures
        nearest(longer, date, target) == nearest(hourly, date, target),
{
    let added = hourly.time@.len() as int;
    assert forall|j: int| j != added implies #[trigger] candidate(longer, date, target, j)
        == candidate(hourly, date, target, j) by {
        if 0 <= j < added {
            assert(longer.time@[j] == hourly.time@[j]);
        }
    }
    assert forall|j: int| 0 <= j < added implies #[trigger] distance(longer, target, j)
        == distance(hourly, target, j) by {
        assert(longer.time@[j] == hourly.time@[j]);
    }
    nearest_exists_among_candidates(hourly, date, target);
    nearest_exists_among_candidates(longer, date, target);
    if let Some(i) = nearest(hourly, date, target) {
        assert(candidate(longer, date, target, i));
        assert forall|j: int| #[trigger] candidate(longer, date, target, j) implies distance(
            longer,
            target,
            i,
        ) <= distance(longer, target, j) && (distance(longer, target, j) == distance(
            longer,
            target,
            i,
        ) ==> i <= j) by {
            if j != added {
                assert(candidate(hourly, date, target, j));
            }
        }
        assert(is_nearest(longer, date, target, i));
        nearest_is_unique(longer, date, target, i, nearest(longer, date, target)->Some_0);
    } else if let Some(i) = nearest(longer, date, target) {
        assert(candidate(longer, date, target, i));
        assert(candidate(hourly, date, target, i));
    }
}

/// The index of the hour that stands for the hour `target_hour` of the day `target_date`.
fn nearest_hour(hourly: &HourlyWeather, target_date: &str, target_hour: i32) -> (best: Option<
    usize,
>)
    requires
        distances_fit(hourly, target_date@, target_hour),
    ensures
        match best {
            Some(i) => nearest(hourly, target_date@, target_hour) == Some(i as int),
            None => nearest(hourly, target_date@, target_hour) is None,
        },
{
    let ghost date = target_date@;
    let mut best_idx: Option<usize> = None;
    let mut best_distance: i32 = i32::MAX;
    let mut idx: usize = 0;
    while idx < hourly.time.len()
        invariant
            date == target_date@,
            idx <= hourly.time@.len(),
            distances_fit(hourly, date, target_hour),
            best_idx is None ==> best_distance == i32::MAX,
            best_idx matches Some(b) ==> {
                &&& b < idx
                &&& candidate(hourly, date, target_hour, b as int)
                &&& best_distance == distance(hourly, target_hour, b as int)
            },
            forall|j: int|
                j < idx && #[trigger] candidate(hourly, date, target_hour, j) ==> {
                    &&& best_idx is Some
                    &&& best_distance <= distance(hourly, target_hour, j)
                    &&& best_distance == distance(hourly, target_hour, j) ==> best_idx->Some_0 <= j
                },
        decreases hourly.time@.len() - idx,
    {
        let raw_time = hourly.time[idx].as_str();
        if text::starts_with(raw_time, target_date) {
            if let Some(hour) = forecast::parse_local_hour(raw_time) {
                assert(on_date(hourly, date, idx as int));
                let distance: i32 = if hour >= target_hour {
                    hour - target_hour
                } else {
                    target_hour - hour
                };
                if distance < best_distance {
                    best_distance = distance;
                    best_idx = Some(idx);
                }
            }
        }
        idx = idx + 1;
    }
    proof {
        nearest_exists_among_candidates(hourly, date, target_hour);
        if let Some(b) = best_idx {
            assert(is_nearest(hourly, date, target_hour, b as int));
            nearest_is_unique(
                hourly,
                date,
                target_hour,
                b as int,
                nearest(hourly, date, target_hour)->Some_0,
            );
        }
    }
    best_idx
}

/// What a card says of the hour `target_hour` of the day `target_date`, under the name `slot`.
pub fn pick_period_payload(
    hourly: &HourlyWeather,
    target_date: &str,
    slot: &str,
    target_hour: i32,
) -> (payload: Option<Value>)
    requires
        distances_fit(hourly, target_date@, target_hour),
    ensures
        json::json_of_option(payload) == period_model(hourly, target_date@, slot@, target_hour),
{
    let idx: usize = match nearest_hour(hourly, target_date, target_hour) {
        Some(i) => i,
        None => return None,
    };
    if idx >= hourly.temperature_2m.len() {
        return None;
    }
    let condition = condition::condition_for(
        if idx < hourly.weather_code.len() {
            Some(hourly.weather_code[idx])
        } else {
            None
        },
    );
    let precipitation = if idx < hourly.precipitation_probability.len() {
        Some(reading::matrix_safe_number(hourly.precipitation_probability[idx]))
    } else {
        None
    };
    let mut payload = serde_json::Map::new();
    payload.insert("slot".to_string(), json::text(slot));
    payload.insert(
        "temp_c".to_string(),
        reading::matrix_safe_number(hourly.temperature_2m[idx]),
    );
    payload.insert("condition".to_string(), json::text(condition));
    json::insert_some(&mut payload, "precipitation_probability", precipitation);
    assert(json::entries_of(payload) =~= period_entries(hourly, slot@, idx as int));
    Some(json::object(payload))
}

/// The values of `values` that are there, in order.
pub open spec fn those_present(values: Seq<Option<Json>>) -> Seq<Json>
    decreases values.len(),
{
    if values.len() == 0 {
        seq![]
    } else {
        match values.last() {
            Some(value) => those_present(values.drop_last()).push(value),
            None => those_present(values.drop_last()),
        }
    }
}

/// What a card says of the parts of the first day of `daily`: the morning at 8, noon at 13 and
/// the night at 20, each where there is an hour for it.
pub open spec fn periods_model(hourly: &HourlyWeather, daily: &DailyWeather) -> Seq<Json> {
    if daily.time@.len() == 0 {
        seq![]
    } else {
        let date = daily.time@[0]@;
        those_present(
            seq![
                period_model(hourly, date, "morning"@, 8),
                period_model(hourly, date, "noon"@, 13),
                period_model(hourly, date, "night"@, 20),
            ],
        )
    }
}

/// The distances to an hour of the day are always small.
pub proof fn distances_to_an_hour_of_day_fit(
    hourly: &HourlyWeather,
    date: Seq<char>,
    target: i32,
)
    requires
        0 <= target <= 23,
    ensures
        distances_fit(hourly, date, target),
{
    assert forall|i: int| #[trigger] on_date(hourly, date, i) implies distance(hourly, target, i)
        <= i32::MAX by {
        forecast::local_hours_are_small(utf8::encode_utf8(hourly.time@[i]@));
    }
}

/// What a card says of the parts of the first day of `daily`, in the order of the day.
pub fn build_periods_payload(hourly: &HourlyWeather, daily: &DailyWeather) -> (periods: Vec<Value>)
    ensures
        json::json_of_each(periods@) == periods_model(hourly, daily),
{
    let mut periods: Vec<Value> = Vec::new();
    if daily.time.len() == 0 {
        assert(json::json_of_each(periods@) =~= seq![]);
        return periods;
    }
    let date = daily.time[0].as_str();
    proof {
        distances_to_an_hour_of_day_fit(hourly, date@, 8);
        distances_to_an_hour_of_day_fit(hourly, date@, 13);
        distances_to_an_hour_of_day_fit(hourly, date@, 20);
    }
    if let Some(payload) = pick_period_payload(hourly, date, "morning", 8) {
        periods.push(payload);
    }
    if let Some(payload) = pick_period_payload(hourly, date, "noon", 13) {
        periods.push(payload);
    }
    if let Some(payload) = pick_period_payload(hourly, date, "night", 20) {
        periods.push(payload);
    }
    proof {
        let morning = period_model(hourly, date@, "morning"@, 8);
        let noon = period_model(hourly, date@, "noon"@, 13);
        let night = period_model(hourly, date@, "night"@, 20);
        three_present(morning, noon, night);
        assert(json::json_of_each(periods@) =~= periods_model(hourly, daily));
    }
    periods
}

/// Those present of three values, written out.
proof fn three_present(first: Option<Json>, second: Option<Json>, third: Option<Json>)
    ensures
        those_present(seq![first, second, third]) == one_or_none(first) + one_or_none(second)
            + one_or_none(third),
{
    let all = seq![first, second, third];
    assert(all.drop_last() =~= seq![first, second]);
    assert(all.drop_last().drop_last() =~= seq![first]);
    reveal_with_fuel(those_present, 4);
    assert(those_present(all) =~= one_or_none(first) + one_or_none(second) + one_or_none(third));
}

/// The list that holds `value`, or nothing where there is no value.
spec fn one_or_none(value: Option<Json>) -> Seq<Json> {
    match value {
        Some(v) => seq![v],
        None => seq![],
    }
}

/// The name under which a card speaks of a part of the day.
pub open spec fn slot_of(period: Json) -> Seq<char> {
    period->Object_0["slot"@]->Text_0
}

/// The place of a part of the day in the order of the day.
pub open spec fn slot_rank(slot: Seq<char>) -> int {
    if slot == "morning"@ {
        0
    } else if slot == "noon"@ {
        1
    } else if slot == "night"@ {
        2
    } else {
        3
    }
}

/// A card speaks of each part of the day at most once, and in the order of the day.
pub proof fn periods_are_in_the_order_of_the_day(hourly: &HourlyWeather, daily: &DailyWeather)
    ensures
        periods_model(hourly, daily).len() <= 3,
        forall|i: int|
            0 <= i < periods_model(hourly, daily).len() ==> 0 <= slot_rank(
                slot_of(#[trigger] periods_model(hourly, daily)[i]),
            ) < 3,
        forall|i: int, j: int|
            0 <= i < j < periods_model(hourly, daily).len() ==> slot_rank(
                slot_of(#[trigger] periods_model(hourly, daily)[i]),
            ) < slot_rank(slot_of(#[trigger] periods_model(hourly, daily)[j])),
{
    if daily.time@.len() > 0 {
        let date = daily.time@[0]@;
        let morning = period_model(hourly, date, "morning"@, 8);
        let noon = period_model(hourly, date, "noon"@, 13);
        let night = period_model(hourly, date, "night"@, 20);
        three_present(morning, noon, night);
        period_keeps_its_slot(hourly, date, "morning"@, 8);
        period_keeps_its_slot(hourly, date, "noon"@, 13);
        period_keeps_its_slot(hourly, date, "night"@, 20);
        slots_differ();
    }
}

/// What a card says of the parts of the day holds no number but integers of 64 bits.
pub proof fn periods_are_canonical(hourly: &HourlyWeather, daily: &DailyWeather)
    ensures
        forall|i: int|
            0 <= i < periods_model(hourly, daily).len() ==> json::canonical(
                #[trigger] periods_model(hourly, daily)[i],
            ),
{
    if daily.time@.len() > 0 {
        let date = daily.time@[0]@;
        let morning = period_model(hourly, date, "morning"@, 8);
        let noon = period_model(hourly, date, "noon"@, 13);
        let night = period_model(hourly, date, "night"@, 20);
        three_present(morning, noon, night);
        period_is_canonical(hourly, date, "morning"@, 8);
        period_is_canonical(hourly, date, "noon"@, 13);
        period_is_canonical(hourly, date, "night"@, 20);
    }
}

/// What a card says of one part of the day holds no number but integers of 64 bits.
proof fn period_is_canonical(
    hourly: &HourlyWeather,
    date: Seq<char>,
    slot: Seq<char>,
    target: i32,
)
    ensures
        period_model(hourly, date, slot, target) matches Some(period) ==> json::canonical(period),
{
    if let Some(period) = period_model(hourly, date, slot, target) {
        let entries = period->Object_0;
        assert forall|key: Seq<char>| entries.contains_key(key) implies json::canonical(
            #[trigger] entries[key],
        ) by {}
    }
}

/// A part of the day is spoken of under the name that was asked for.
pub proof fn period_keeps_its_slot(
    hourly: &HourlyWeather,
    date: Seq<char>,
    slot: Seq<char>,
    target: i32,
)
    ensures
        period_model(hourly, date, slot, target) matches Some(period) ==> slot_of(period) == slot,
{
    reveal_strlit("slot");
    reveal_strlit("temp_c");
    reveal_strlit("condition");
    reveal_strlit("precipitation_probability");
    assert("slot"@.len() == 4);
    assert("temp_c"@.len() == 6);
    assert("condition"@.len() == 9);
    assert("precipitation_probability"@.len() == 25);
}

/// The three parts of the day have three names.
proof fn slots_differ()
    ensures
        slot_rank("morning"@) == 0,
        slot_rank("noon"@) == 1,
        slot_rank("night"@) == 2,
{
    reveal_strlit("morning");
    reveal_strlit("noon");
    reveal_strlit("night");
    assert("morning"@.len() == 7);
    assert("noon"@.len() == 4);
    assert("night"@.len() == 5);
}

} // verus!
