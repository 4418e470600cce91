//! The six visual conditions of a weather card.

use crate::text;
use vstd::prelude::*;

verus! {

/// The WMO codes of a partly clouded or an overcast sky.
pub open spec fn code_is_cloudy(code: u32) -> bool {
    code == 2 || code == 3
}

/// The WMO codes of fog and rime fog.
pub open spec fn code_is_foggy(code: u32) -> bool {
    code == 45 || code == 48
}

/// The WMO codes of drizzle, rain and rain showers, freezing or not.
pub open spec fn code_is_rainy(code: u32) -> bool {
    51 <= code <= 57 || 61 <= code <= 67 || 80 <= code <= 82
}

/// The WMO codes of snow, snow grains and snow showers.
pub open spec fn code_is_snowy(code: u32) -> bool {
    71 <= code <= 77 || code == 85 || code == 86
}

/// The WMO codes of thunderstorms.
pub open spec fn code_is_stormy(code: u32) -> bool {
    code == 95 || code == 96 || code == 99
}

/// The condition that a card shows for the WMO code `code`. A clear sky, and a code that is
/// not known, is `sunny`.
pub open spec fn condition_of(code: u32) -> Seq<char> {
    if code_is_cloudy(code) {
        "cloudy"@
    } else if code_is_foggy(code) {
        "foggy"@
    } else if code_is_rainy(code) {
        "rainy"@
    } else if code_is_snowy(code) {
        "snowy"@
    } else if code_is_stormy(code) {
        "stormy"@
    } else {
        "sunny"@
    }
}

/// The condition that a card shows where the code may be missing: `sunny` without one.
pub open spec fn condition_or_sunny(code: Option<u32>) -> Seq<char> {
    match code {
        Some(c) => condition_of(c),
        None => "sunny"@,
    }
}

/// The names of the six conditions.
pub open spec fn is_condition(name: Seq<char>) -> bool {
    name == "sunny"@ || name == "cloudy"@ || name == "rainy"@ || name == "snowy"@ || name
        == "stormy"@ || name == "foggy"@
}

/// The word for the condition `name` in a one-line text; empty for what is no condition.
pub open spec fn fallback_text_of(name: Seq<char>) -> Seq<char> {
    if name == "sunny"@ {
        "sunny"@
    } else if name == "cloudy"@ {
        "cloudy"@
    } else if name == "rainy"@ {
        "rain"@
    } else if name == "snowy"@ {
        "snow"@
    } else if name == "stormy"@ {
        "thunderstorm"@
    } else if name == "foggy"@ {
        "fog"@
    } else {
        ""@
    }
}

/// Maps a WMO weather code to one of the six conditions. A code that is not known falls back
/// to `sunny`: the card is still useful when its condition is approximate.
pub fn weather_code_to_condition(code: u32) -> (condition: &'static str)
    ensures
        condition@ == condition_of(code),
{
    match code {
        0 | 1 => "sunny",
        2 | 3 => "cloudy",
        45 | 48 => "foggy",
        51..=57 => "rainy",
        61..=67 => "rainy",
        80..=82 => "rainy",
        71..=77 | 85 | 86 => "snowy",
        95 | 96 | 99 => "stormy",
        _ => "sunny",
    }
}

/// The condition for a code that may be missing.
pub fn condition_for(code: Option<u32>) -> (condition: &'static str)
    ensures
        condition@ == condition_or_sunny(code),
{
    match code {
        Some(c) => weather_code_to_condition(c),
        None => "sunny",
    }
}

/// The word for a condition in a one-line text, simple enough for a preview. What is none of
/// the six conditions has an empty word.
pub fn condition_fallback_text(condition: &str) -> (word: &'static str)
    ensures
        word@ == fallback_text_of(condition@),
{
    if text::same_text(condition, "sunny") {
        "sunny"
    } else if text::same_text(condition, "cloudy") {
        "cloudy"
    } else if text::same_text(condition, "rainy") {
        "rain"
    } else if text::same_text(condition, "snowy") {
        "snow"
    } else if text::same_text(condition, "stormy") {
        "thunderstorm"
    } else if text::same_text(condition, "foggy") {
        "fog"
    } else {
        ""
    }
}

/// Every code, known or not, has one of the six conditions, and each of the six is the
/// condition of some code.
pub proof fn codes_cover_the_six_conditions()
    ensures
        forall|code: u32| is_condition(#[trigger] condition_of(code)),
        forall|name: Seq<char>|
            is_condition(name) ==> exists|code: u32| #[trigger] condition_of(code) == name,
{
    assert forall|name: Seq<char>| is_condition(name) implies exists|code: u32| #[trigger]
        condition_of(code) == name by {
        assert(condition_of(0) == "sunny"@);
        assert(condition_of(2) == "cloudy"@);
        assert(condition_of(51) == "rainy"@);
        assert(condition_of(71) == "snowy"@);
        assert(condition_of(95) == "stormy"@);
        assert(condition_of(45) == "foggy"@);
    }
}

/// Exactly the six conditions have a word for the one-line text.
pub proof fn fallback_text_exists_for_conditions(name: Seq<char>)
    ensures
        fallback_text_of(name).len() > 0 <==> is_condition(name),
{
    reveal_strlit("sunny");
    reveal_strlit("cloudy");
    reveal_strlit("rain");
    reveal_strlit("snow");
    reveal_strlit("thunderstorm");
    reveal_strlit("fog");
    reveal_strlit("");
}

/// Each of the six conditions has a word of its own.
pub proof fn fallback_texts_differ(a: Seq<char>, b: Seq<char>)
    requires
        is_condition(a),
        is_condition(b),
        fallback_text_of(a) == fallback_text_of(b),
    ensures
        a == b,
{
    reveal_strlit("sunny");
    reveal_strlit("cloudy");
    reveal_strlit("rain");
    reveal_strlit("snow");
    reveal_strlit("thunderstorm");
    reveal_strlit("fog");
    assert("sunny"@.len() == 5);
    assert("cloudy"@.len() == 6);
    assert("rain"@[0] == 'r');
    assert("snow"@[0] == 's');
    assert("thunderstorm"@.len() == 12);
    assert("fog"@.len() == 3);
}

} // verus!
