//! Laws of texts: white space, languages, conditions, addresses and hours.

use crate::clock;
use crate::condition;
use crate::forecast;
use crate::language;
use crate::text;
use crate::url;
use vstd::prelude::*;

verus! {

/// White space is what Unicode says: the characters with these numbers, and no others.
pub proof fn white_space_has_these_characters(c: char)
    ensures
        text::white_space(c) <==> {
            let n = c as u32;
            ||| 9 <= n <= 13
            ||| n == 32
            ||| n == 0x85
            ||| n == 0xa0
            ||| n == 0x1680
            ||| 0x2000 <= n <= 0x200a
            ||| n == 0x2028
            ||| n == 0x2029
            ||| n == 0x202f
            ||| n == 0x205f
            ||| n == 0x3000
        },
{
}

/// A text is blank exactly where it has no character but white space.
pub proof fn blank_means_white_space_alone(s: Seq<char>)
    ensures
        (exists|i: int| 0 <= i < s.len() && !text::white_space(#[trigger] s[i])) <==> !text::blank(
            s,
        ),
{
}

/// Trimming takes away the white space on both sides, and nothing else: what stands between
/// comes out as it is, if it begins and ends with other characters.
pub proof fn trimming_takes_the_padding_off(
    before: Seq<char>,
    middle: Seq<char>,
    after: Seq<char>,
)
    requires
        forall|i: int| 0 <= i < before.len() ==> text::white_space(#[trigger] before[i]),
        forall|i: int| 0 <= i < after.len() ==> text::white_space(#[trigger] after[i]),
        middle.len() > 0 ==> !text::white_space(middle.first()) && !text::white_space(
            middle.last(),
        ),
    ensures
        text::trimmed(before + middle + after) == middle,
{
    text::trimming_ignores_padding(before, middle, after);
    assert(text::without_leading_space(middle) == middle);
    assert(text::without_trailing_space(middle) == middle);
}

/// A text that may be missing is missing in its model exactly where it is missing, and has the
/// same characters where it is there.
pub proof fn optional_texts_keep_their_characters(kept: Option<String>, lent: Option<&str>)
    ensures
        kept matches Some(t) ==> text::owned(kept) == Some(t@),
        kept is None ==> text::owned(kept) is None,
        lent matches Some(t) ==> text::borrowed(lent) == Some(t@),
        lent is None ==> text::borrowed(lent) is None,
{
}

/// The names of a language are these and no others, with any white space around them: three
/// for English and four for simplified Chinese. Upper and lower case matter.
pub proof fn languages_have_these_names(raw: Seq<char>)
    ensures
        ({
            let name = text::trimmed(raw);
            let english = name == "en"@ || name == "en-US"@ || name == "English"@;
            let chinese = name == "zh"@ || name == "zh-CN"@ || name == "zh_CN"@ || name
                == "ChineseSimplified"@;
            &&& english ==> language::language_code_of(raw) == Some("en"@)
            &&& chinese ==> language::language_code_of(raw) == Some("zh-CN"@)
            &&& !english && !chinese ==> language::language_code_of(raw) is None
        }),
{
    reveal_strlit("en");
    reveal_strlit("en-US");
    reveal_strlit("English");
    reveal_strlit("zh");
    reveal_strlit("zh-CN");
    reveal_strlit("zh_CN");
    reveal_strlit("ChineseSimplified");
    assert("en"@[0] == 'e' && "en-US"@[0] == 'e' && "English"@[0] == 'E');
    assert("zh"@[0] == 'z' && "zh-CN"@[0] == 'z' && "zh_CN"@[0] == 'z');
    assert("ChineseSimplified"@[0] == 'C');
}

/// Each WMO code has the condition of its kind of weather, and a code that is of none of these
/// kinds is `sunny`; so is a code that is missing.
pub proof fn codes_have_the_condition_of_their_kind(code: u32)
    ensures
        condition::condition_or_sunny(None) == "sunny"@,
        condition::condition_or_sunny(Some(code)) == condition::condition_of(code),
        code == 2 || code == 3 ==> condition::condition_of(code) == "cloudy"@,
        code == 45 || code == 48 ==> condition::condition_of(code) == "foggy"@,
        51 <= code <= 57 ==> condition::condition_of(code) == "rainy"@,
        61 <= code <= 67 ==> condition::condition_of(code) == "rainy"@,
        80 <= code <= 82 ==> condition::condition_of(code) == "rainy"@,
        71 <= code <= 77 ==> condition::condition_of(code) == "snowy"@,
        code == 85 || code == 86 ==> condition::condition_of(code) == "snowy"@,
        code == 95 || code == 96 || code == 99 ==> condition::condition_of(code) == "stormy"@,
        code <= 1 || 4 <= code <= 44 || 46 <= code <= 47 || 49 <= code <= 50 || 58 <= code <= 60
            || 68 <= code <= 70 || 78 <= code <= 79 || 83 <= code <= 84 || 87 <= code <= 94 || 97
            <= code <= 98 || code >= 100 ==> condition::condition_of(code) == "sunny"@,
{
}

/// Each condition has its word, and what is no condition has an empty one.
pub proof fn conditions_have_these_words(name: Seq<char>)
    ensures
        condition::fallback_text_of("sunny"@) == "sunny"@,
        condition::fallback_text_of("cloudy"@) == "cloudy"@,
        condition::fallback_text_of("rainy"@) == "rain"@,
        condition::fallback_text_of("snowy"@) == "snow"@,
        condition::fallback_text_of("stormy"@) == "thunderstorm"@,
        condition::fallback_text_of("foggy"@) == "fog"@,
        name != "sunny"@ && name != "cloudy"@ && name != "rainy"@ && name != "snowy"@ && name
            != "stormy"@ && name != "foggy"@ ==> condition::fallback_text_of(name).len() == 0,
        condition::is_condition(name) <==> (name == "sunny"@ || name == "cloudy"@ || name
            == "rainy"@ || name == "snowy"@ || name == "stormy"@ || name == "foggy"@),
{
    reveal_strlit("sunny");
    reveal_strlit("cloudy");
    reveal_strlit("rainy");
    reveal_strlit("snowy");
    reveal_strlit("stormy");
    reveal_strlit("foggy");
    reveal_strlit("");
    assert("sunny"@.len() == 5 && "sunny"@[0] == 's' && "sunny"@[1] == 'u');
    assert("cloudy"@.len() == 6 && "cloudy"@[0] == 'c');
    assert("rainy"@.len() == 5 && "rainy"@[0] == 'r');
    assert("snowy"@.len() == 5 && "snowy"@[0] == 's' && "snowy"@[1] == 'n');
    assert("stormy"@.len() == 6 && "stormy"@[0] == 's');
    assert("foggy"@.len() == 5 && "foggy"@[0] == 'f');
}

/// In a query, a letter, a digit and each of `-`, `_`, `.` and `~` stands for itself, and any
/// other byte is a percent sign with the two hexadecimal digits of the byte, in upper case and
/// the high one first.
pub proof fn a_byte_is_encoded_so(byte: u8)
    ensures
        ({
            let encoded = url::percent_encoded(seq![byte]);
            if 'A' as u8 <= byte <= 'Z' as u8 || 'a' as u8 <= byte <= 'z' as u8 || '0' as u8 <= byte
                <= '9' as u8 || byte == '-' as u8 || byte == '_' as u8 || byte == '.' as u8 || byte
                == '~' as u8 {
                encoded == seq![byte as char]
            } else {
                encoded == seq![
                    '%',
                    "0123456789ABCDEF"@[byte as int / 16],
                    "0123456789ABCDEF"@[byte as int % 16],
                ]
            }
        }),
{
    reveal_strlit("0123456789ABCDEF");
    reveal_with_fuel(url::percent_encoded, 2);
    assert(seq![byte].drop_first().len() == 0);
    assert(url::percent_encoded(seq![byte]) =~= url::encoded_byte(byte));
}

/// Bytes are encoded one by one: no byte's encoding depends on those around it.
pub proof fn bytes_are_encoded_one_by_one(bytes: Seq<u8>, byte: u8)
    ensures
        url::percent_encoded(Seq::empty()).len() == 0,
        url::percent_encoded(bytes.push(byte)) == url::percent_encoded(bytes)
            + url::percent_encoded(seq![byte]),
{
    url::encoding_is_piecewise(bytes, seq![byte]);
    assert(bytes + seq![byte] =~= bytes.push(byte));
}

/// A search asks for five places of the name; the language comes last, where there is one.
pub proof fn searches_ask_so(encoded: Seq<char>, lang: Seq<char>)
    ensures
        url::search_url_of(encoded, Seq::empty())
            == "https://geocoding-api.open-meteo.com/v1/search?name="@ + encoded + "&count=5"@,
        lang.len() > 0 ==> url::search_url_of(encoded, lang) == url::search_url_of(
            encoded,
            Seq::empty(),
        ) + "&language="@ + lang,
{
}

/// A forecast is asked for by the latitude, the longitude and the time zone of the place, each
/// behind its own name, and `auto` stands for a time zone that is not known. What is asked for
/// does not depend on the place.
pub proof fn forecasts_ask_so(latitude: Seq<char>, longitude: Seq<char>, zone: Seq<char>)
    ensures
        url::forecast_url_of(latitude, longitude, None) == url::forecast_url_of(
            latitude,
            longitude,
            Some("auto"@),
        ),
        url::forecast_url_of(latitude, longitude, Some(zone))
            == "https://api.open-meteo.com/v1/forecast?latitude="@ + latitude + "&longitude="@
            + longitude
            + "&current=temperature_2m,relative_humidity_2m,apparent_temperature,weather_code,wind_speed_10m"@
            + "&hourly=temperature_2m,weather_code,precipitation_probability"@
            + "&daily=temperature_2m_max,temperature_2m_min,precipitation_probability_max,uv_index_max"@
            + "&forecast_days=1"@ + "&timezone="@ + zone,
{
}

/// The hour of a local time is what its twelfth and thirteenth byte write: two digits, or a
/// plus or minus sign and one digit. Any other bytes there, and a time that is too short, have
/// no hour; no other byte of the time matters.
pub proof fn hours_are_read_so(time: Seq<u8>)
    ensures
        time.len() < 13 ==> forecast::local_hour(time) is None,
        time.len() >= 13 ==> {
            let tens = time[11] - '0' as u8;
            let ones = time[12] - '0' as u8;
            let hour = forecast::local_hour(time);
            &&& 0 <= ones <= 9 && 0 <= tens <= 9 ==> hour is Some && hour->Some_0 == 10 * tens + ones
            &&& 0 <= ones <= 9 && time[11] == '+' as u8 ==> hour is Some && hour->Some_0 == ones
            &&& 0 <= ones <= 9 && time[11] == '-' as u8 ==> hour is Some && hour->Some_0 == -ones
            &&& !(0 <= ones <= 9) ==> hour is None
            &&& !(0 <= tens <= 9) && time[11] != '+' as u8 && time[11] != '-' as u8 ==> hour is None
        },
{
}

/// A time stamp is that of a time in UTC, to the second or finer: it ends with the offset of
/// UTC, and there are at least 25 characters of it.
pub proof fn stamps_end_with_the_offset_of_utc(stamp: Seq<char>)
    requires
        clock::stamped_in_utc(stamp),
    ensures
        stamp.len() >= 25,
        stamp.skip(stamp.len() - 6) == "+00:00"@,
{
    reveal_strlit("+00:00");
    let (year, day_and_time, fraction) = choose|
        year: Seq<char>,
        day_and_time: Seq<char>,
        fraction: Seq<char>,
    | #[trigger] clock::stamp_of_parts(stamp, year, day_and_time, fraction);
    assert("+00:00"@.len() == 6);
    assert(stamp.skip(stamp.len() - 6) =~= "+00:00"@);
}

} // verus!
