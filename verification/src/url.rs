//! The addresses that a card's data comes from.

use crate::text;
use vstd::prelude::*;
use vstd::utf8;

verus! {

/// The bytes that stand for themselves in a URL query component.
pub open spec fn unreserved(byte: u8) -> bool {
    ||| 65 <= byte <= 90
    ||| 97 <= byte <= 122
    ||| 48 <= byte <= 57
    ||| byte == 45
    ||| byte == 95
    ||| byte == 46
    ||| byte == 126
}

/// The hexadecimal digit of value `n`, in upper case.
pub open spec fn hex_digit(n: int) -> char {
    if n < 10 {
        (48 + n) as char
    } else {
        (55 + n) as char
    }
}

/// What stands for `byte` in a URL query component: the byte's own character, or a percent
/// sign with the two hexadecimal digits of the byte.
pub open spec fn encoded_byte(byte: u8) -> Seq<char> {
    if unreserved(byte) {
        seq![byte as char]
    } else {
        seq!['%', hex_digit(byte as int / 16), hex_digit(byte as int % 16)]
    }
}

/// What stands for `bytes` in a URL query component: what stands for each of them, in order.
pub open spec fn percent_encoded(bytes: Seq<u8>) -> Seq<char>
    decreases bytes.len(),
{
    if bytes.len() == 0 {
        seq![]
    } else {
        encoded_byte(bytes.first()) + percent_encoded(bytes.drop_first())
    }
}

/// The hexadecimal digit of value `n` as a text.
fn hex_digit_text(n: u8) -> (digit: &'static str)
    requires
        n < 16,
    ensures
        digit@ == seq![hex_digit(n as int)],
{
    let digits: &'static str = "0123456789ABCDEF";
    proof {
        reveal_strlit("0123456789ABCDEF");
    }
    let digit = digits.substring_ascii(n as usize, n as usize + 1);
    assert(digit@ =~= seq![hex_digit(n as int)]);
    digit
}

/// The character of an unreserved byte as a text.
fn unreserved_text(byte: u8) -> (character: &'static str)
    requires
        unreserved(byte),
    ensures
        character@ == seq![byte as char],
{
    let all: &'static str = "ABCDEFGHIJKLMNOPQRSTUVWXYZabcdefghijklmnopqrstuvwxyz0123456789-_.~";
    proof {
        reveal_strlit("ABCDEFGHIJKLMNOPQRSTUVWXYZabcdefghijklmnopqrstuvwxyz0123456789-_.~");
    }
    let at: usize = if 65 <= byte && byte <= 90 {
        byte as usize - 65
    } else if 97 <= byte && byte <= 122 {
        byte as usize - 71
    } else if 48 <= byte && byte <= 57 {
        byte as usize + 4
    } else if byte == 45 {
        62
    } else if byte == 95 {
        63
    } else if byte == 46 {
        64
    } else {
        65
    };
    let character = all.substring_ascii(at, at + 1);
    assert(character@ =~= seq![byte as char]);
    character
}

/// Encodes `input`, as UTF-8, for use in a URL query component.
pub fn percent_encode(input: &str) -> (out: String)
    ensures
        out@ == percent_encoded(utf8::encode_utf8(input@)),
{
    let bytes = input.as_bytes();
    let mut out = String::new();
    let mut i: usize = 0;
    assert(bytes@.skip(0) =~= bytes@);
    while i < bytes.len()
        invariant
            bytes@ == utf8::encode_utf8(input@),
            i <= bytes@.len(),
            percent_encoded(bytes@) == out@ + percent_encoded(bytes@.skip(i as int)),
        decreases bytes@.len() - i,
    {
        let byte = bytes[i];
        let ghost before = out@;
        if (65 <= byte && byte <= 90) || (97 <= byte && byte <= 122) || (48 <= byte && byte <= 57)
            || byte == 45 || byte == 95 || byte == 46 || byte == 126 {
            out.append(unreserved_text(byte));
        } else {
            out.append("%");
            out.append(hex_digit_text(byte / 16));
            out.append(hex_digit_text(byte % 16));
            proof {
                reveal_strlit("%");
            }
        }
        proof {
            let rest = bytes@.skip(i as int);
            assert(out@ =~= before + encoded_byte(byte));
            assert(rest.drop_first() =~= bytes@.skip(i + 1));
            assert(before + percent_encoded(rest) =~= out@ + percent_encoded(bytes@.skip(i + 1)));
        }
        i = i + 1;
    }
    assert(bytes@.skip(i as int).len() == 0);
    assert(out@ + percent_encoded(bytes@.skip(i as int)) =~= out@);
    out
}

/// The address of a search for the places of a name, which is given percent-encoded. The
/// search takes the name to be written in `lang`, where that is not empty.
pub open spec fn search_url_of(encoded: Seq<char>, lang: Seq<char>) -> Seq<char> {
    let plain = "https://geocoding-api.open-meteo.com/v1/search?name="@ + encoded + "&count=5"@;
    if lang.len() == 0 {
        plain
    } else {
        plain + "&language="@ + lang
    }
}

/// The address of a search for the places of a name, which is given percent-encoded.
pub fn search_url(encoded: &str, lang: &str) -> (url: String)
    ensures
        url@ == search_url_of(encoded@, lang@),
{
    let mut url = "https://geocoding-api.open-meteo.com/v1/search?name=".to_string();
    url.append(encoded);
    url.append("&count=5");
    if !lang.is_empty() {
        url.append("&language=");
        url.append(lang);
    }
    url
}

/// The address of the forecast of one day for a place: its coordinates in decimal notation,
/// and its time zone, `auto` where that is not known.
pub open spec fn forecast_url_of(
    latitude: Seq<char>,
    longitude: Seq<char>,
    timezone: Option<Seq<char>>,
) -> Seq<char> {
    "https://api.open-meteo.com/v1/forecast?latitude="@ + latitude + "&longitude="@ + longitude
        + "&current=temperature_2m,relative_humidity_2m,apparent_temperature,weather_code,wind_speed_10m"@
        + "&hourly=temperature_2m,weather_code,precipitation_probability"@
        + "&daily=temperature_2m_max,temperature_2m_min,precipitation_probability_max,uv_index_max"@
        + "&forecast_days=1"@ + "&timezone="@ + match timezone {
        Some(zone) => zone,
        None => "auto"@,
    }
}

/// The address of the forecast of one day for a place.
pub fn forecast_url(latitude: &str, longitude: &str, timezone: Option<&str>) -> (url: String)
    ensures
        url@ == forecast_url_of(latitude@, longitude@, text::borrowed(timezone)),
{
    let mut url = "https://api.open-meteo.com/v1/forecast?latitude=".to_string();
    url.append(latitude);
    url.append("&longitude=");
    url.append(longitude);
    url.append(
        "&current=temperature_2m,relative_humidity_2m,apparent_temperature,weather_code,wind_speed_10m",
    );
    url.append("&hourly=temperature_2m,weather_code,precipitation_probability");
    url.append(
        "&daily=temperature_2m_max,temperature_2m_min,precipitation_probability_max,uv_index_max",
    );
    url.append("&forecast_days=1");
    url.append("&timezone=");
    match timezone {
        Some(zone) => url.append(zone),
        None => url.append("auto"),
    }
    url
}

/// The value of the hexadecimal digit `digit`, in upper case.
pub open spec fn hex_value(digit: char) -> int {
    if digit as int >= 65 {
        digit as int - 55
    } else {
        digit as int - 48
    }
}

/// The bytes that the URL query component `component` stands for.
pub open spec fn percent_decoded(component: Seq<char>) -> Seq<u8>
    decreases component.len(),
{
    if component.len() == 0 {
        seq![]
    } else if component[0] == '%' && component.len() >= 3 {
        seq![(16 * hex_value(component[1]) + hex_value(component[2])) as u8] + percent_decoded(
            component.skip(3),
        )
    } else {
        seq![component[0] as u8] + percent_decoded(component.skip(1))
    }
}

/// Decoding gives back the bytes that were encoded.
pub proof fn decoding_undoes_encoding(bytes: Seq<u8>)
    ensures
        percent_decoded(percent_encoded(bytes)) == bytes,
    decreases bytes.len(),
{
    if bytes.len() > 0 {
        let byte = bytes.first();
        let rest = percent_encoded(bytes.drop_first());
        let whole = percent_encoded(bytes);
        decoding_undoes_encoding(bytes.drop_first());
        if unreserved(byte) {
            assert(whole.skip(1) =~= rest);
            assert(whole[0] != '%');
        } else {
            assert(whole.skip(3) =~= rest);
            assert(whole[0] == '%');
            assert(hex_value(whole[1]) == byte as int / 16);
            assert(hex_value(whole[2]) == byte as int % 16);
        }
        assert(percent_decoded(whole) =~= seq![byte] + bytes.drop_first());
        assert(seq![byte] + bytes.drop_first() =~= bytes);
    } else {
        assert(percent_decoded(percent_encoded(bytes)) =~= bytes);
    }
}

/// Two names that are encoded alike are the same name.
pub proof fn encoding_is_injective(a: Seq<char>, b: Seq<char>)
    requires
        percent_encoded(utf8::encode_utf8(a)) == percent_encoded(utf8::encode_utf8(b)),
    ensures
        a == b,
{
    decoding_undoes_encoding(utf8::encode_utf8(a));
    decoding_undoes_encoding(utf8::encode_utf8(b));
    utf8::encode_utf8_decode_utf8(a);
    utf8::encode_utf8_decode_utf8(b);
}

/// The characters that may stand in an encoded name.
pub open spec fn component_character(c: char) -> bool {
    c == '%' || (c as int <= 127 && unreserved(c as u8))
}

/// The hexadecimal digits that stand behind a percent sign.
pub open spec fn is_hex_digit(c: char) -> bool {
    '0' <= c <= '9' || 'A' <= c <= 'F'
}

/// An encoded name holds only unreserved characters and percent signs, so it cannot end the
/// query component it stands in, and two hexadecimal digits follow each percent sign.
pub proof fn encoding_is_safe_in_a_query(bytes: Seq<u8>)
    ensures
        forall|i: int|
            0 <= i < percent_encoded(bytes).len() ==> component_character(
                #[trigger] percent_encoded(bytes)[i],
            ),
        forall|i: int|
            0 <= i < percent_encoded(bytes).len() && #[trigger] percent_encoded(bytes)[i] == '%'
                ==> i + 2 < percent_encoded(bytes).len() && is_hex_digit(
                percent_encoded(bytes)[i + 1],
            ) && is_hex_digit(percent_encoded(bytes)[i + 2]),
    decreases bytes.len(),
{
    if bytes.len() > 0 {
        encoding_is_safe_in_a_query(bytes.drop_first());
        let head = encoded_byte(bytes.first());
        let rest = percent_encoded(bytes.drop_first());
        let whole = percent_encoded(bytes);
        assert forall|i: int| 0 <= i < whole.len() implies component_character(#[trigger] whole[i])
            && (whole[i] == '%' ==> i + 2 < whole.len() && is_hex_digit(whole[i + 1])
            && is_hex_digit(whole[i + 2])) by {
            if i >= head.len() {
                let j = i - head.len();
                assert(whole[i] == rest[j]);
                if whole[i] == '%' {
                    assert(whole[i + 1] == rest[j + 1]);
                    assert(whole[i + 2] == rest[j + 2]);
                }
            } else {
                assert(whole[i] == head[i]);
                if i == 0 && head.len() == 3 {
                    assert(whole[1] == head[1]);
                    assert(whole[2] == head[2]);
                }
            }
        }
    }
}

/// The encoding is as long as what is encoded, and two characters longer for each byte that does
/// not stand for itself.
pub proof fn encoding_has_known_length(bytes: Seq<u8>)
    ensures
        percent_encoded(bytes).len() == bytes.len() + 2 * bytes.filter(
            |byte: u8| !unreserved(byte),
        ).len(),
    decreases bytes.len(),
{
    let reserved = |byte: u8| !unreserved(byte);
    reveal(Seq::filter);
    if bytes.len() > 0 {
        let first = seq![bytes.first()];
        encoding_has_known_length(bytes.drop_first());
        assert(bytes =~= first + bytes.drop_first());
        Seq::filter_distributes_over_add(first, bytes.drop_first(), reserved);
        assert(first.drop_last().filter(reserved).len() == 0);
        assert(first.filter(reserved).len() == if unreserved(bytes.first()) {
            0int
        } else {
            1int
        });
    }
}

/// Names can be encoded piece by piece: the encoding of two pieces together is the encodings of
/// the two, one behind the other.
pub proof fn encoding_is_piecewise(a: Seq<u8>, b: Seq<u8>)
    ensures
        percent_encoded(a + b) == percent_encoded(a) + percent_encoded(b),
    decreases a.len(),
{
    if a.len() > 0 {
        assert((a + b).drop_first() =~= a.drop_first() + b);
        encoding_is_piecewise(a.drop_first(), b);
        assert(percent_encoded(a + b) =~= percent_encoded(a) + percent_encoded(b));
    } else {
        assert(a + b =~= b);
        assert(percent_encoded(a) + percent_encoded(b) =~= percent_encoded(b));
    }
}

/// A name of unreserved characters alone is encoded as itself.
pub proof fn unreserved_names_are_unchanged(name: Seq<char>)
    requires
        utf8::is_ascii_chars(name),
        forall|i: int| 0 <= i < name.len() ==> unreserved(#[trigger] name[i] as u8),
    ensures
        percent_encoded(utf8::encode_utf8(name)) == name,
{
    utf8::is_ascii_chars_encode_utf8(name);
    let bytes = utf8::encode_utf8(name);
    assert(bytes =~= Seq::new(name.len(), |i: int| name[i] as u8));
    unreserved_bytes_are_unchanged(bytes);
    assert(percent_encoded(bytes) =~= name);
}

/// Unreserved bytes are encoded one character each.
proof fn unreserved_bytes_are_unchanged(bytes: Seq<u8>)
    requires
        forall|i: int| 0 <= i < bytes.len() ==> unreserved(#[trigger] bytes[i]),
    ensures
        percent_encoded(bytes) == Seq::new(bytes.len(), |i: int| bytes[i] as char),
    decreases bytes.len(),
{
    if bytes.len() > 0 {
        unreserved_bytes_are_unchanged(bytes.drop_first());
        assert(percent_encoded(bytes) =~= Seq::new(bytes.len(), |i: int| bytes[i] as char));
    } else {
        assert(percent_encoded(bytes) =~= Seq::new(bytes.len(), |i: int| bytes[i] as char));
    }
}

} // verus!
