use show_weather_card::condition::{condition_fallback_text, condition_for, weather_code_to_condition};
use show_weather_card::forecast::parse_local_hour;
use show_weather_card::language::normalize_language_code;
use show_weather_card::text::{characters, is_blank, is_white_space, same_text, starts_with, trim};
use show_weather_card::url::{forecast_url, percent_encode, search_url};

#[test]
fn characters_of_a_text() {
    assert_eq!(characters(""), Vec::<char>::new());
    assert_eq!(characters("a北°"), vec!['a', '北', '°']);
}

#[test]
fn texts_are_compared_whole() {
    assert!(same_text("", ""));
    assert!(same_text("zh-CN", "zh-CN"));
    assert!(!same_text("zh-CN", "zh-cn"));
    assert!(!same_text("zh", "zh-CN"));
    assert!(!same_text("北京", "北平"));
}

#[test]
fn prefixes() {
    assert!(starts_with("2026-04-16T08:00", "2026-04-16"));
    assert!(starts_with("2026-04-16", "2026-04-16"));
    assert!(starts_with("2026-04-16", ""));
    assert!(!starts_with("2026-04-1", "2026-04-16"));
    assert!(!starts_with("2026-04-17T08:00", "2026-04-16"));
}

#[test]
fn white_space_is_that_of_unicode() {
    for code in 0..=0x10ffffu32 {
        if let Some(c) = char::from_u32(code) {
            assert_eq!(is_white_space(c), c.is_whitespace(), "{:x}", code);
        }
    }
}

#[test]
fn trimming_takes_white_space_at_both_ends() {
    for text in ["", " ", "en", " en", "en\t\n", "\u{3000}zh \u{a0}", " a b ", "\u{200b}x"] {
        assert_eq!(trim(text), text.trim());
        assert_eq!(trim(trim(text)), text.trim());
        assert_eq!(is_blank(text), text.trim().is_empty());
    }
}

#[test]
fn language_names_may_be_padded() {
    assert_eq!(normalize_language_code("  zh_CN\n"), Some("zh-CN"));
    assert_eq!(normalize_language_code("\u{3000}ChineseSimplified"), Some("zh-CN"));
    assert_eq!(normalize_language_code(" en "), Some("en"));
    assert_eq!(normalize_language_code("EN"), None);
    assert_eq!(normalize_language_code(""), None);
    assert_eq!(normalize_language_code("zh CN"), None);
}

#[test]
fn language_codes_stand_for_themselves() {
    for name in ["en", "en-US", "English", "zh", "zh-CN", "zh_CN", "ChineseSimplified"] {
        let code = normalize_language_code(name).unwrap();
        assert_eq!(normalize_language_code(code), Some(code));
    }
}

#[test]
fn the_edges_of_the_code_ranges() {
    for (code, condition) in [
        (4, "sunny"),
        (44, "sunny"),
        (46, "sunny"),
        (47, "sunny"),
        (50, "sunny"),
        (57, "rainy"),
        (58, "sunny"),
        (60, "sunny"),
        (61, "rainy"),
        (67, "rainy"),
        (68, "sunny"),
        (70, "sunny"),
        (77, "snowy"),
        (78, "sunny"),
        (79, "sunny"),
        (80, "rainy"),
        (83, "sunny"),
        (85, "snowy"),
        (87, "sunny"),
        (96, "stormy"),
        (97, "sunny"),
        (u32::MAX, "sunny"),
    ] {
        assert_eq!(weather_code_to_condition(code), condition, "{}", code);
    }
    assert_eq!(condition_for(None), "sunny");
    assert_eq!(condition_for(Some(71)), "snowy");
}

#[test]
fn every_code_has_a_word() {
    for code in 0..1000 {
        assert!(!condition_fallback_text(weather_code_to_condition(code)).is_empty());
    }
    assert_eq!(condition_fallback_text("cloudy"), "cloudy");
    assert_eq!(condition_fallback_text("snowy"), "snow");
    assert_eq!(condition_fallback_text("foggy"), "fog");
    assert_eq!(condition_fallback_text(""), "");
}

#[test]
fn hours_of_local_times() {
    assert_eq!(parse_local_hour("2026-04-16T08:00"), Some(8));
    assert_eq!(parse_local_hour("2026-04-16T23:59"), Some(23));
    assert_eq!(parse_local_hour("2026-04-16T00"), Some(0));
    assert_eq!(parse_local_hour("2026-04-16T99:00"), Some(99));
    assert_eq!(parse_local_hour("2026-04-16T0"), None);
    assert_eq!(parse_local_hour("2026-04-16"), None);
    assert_eq!(parse_local_hour(""), None);
    assert_eq!(parse_local_hour("2026-04-16T8:00"), None);
    assert_eq!(parse_local_hour("2026-04-16Tab:00"), None);
}

#[test]
fn hours_agree_with_parsing_the_slice() {
    for raw in [
        "2026-04-16T+8:00",
        "2026-04-16T-8:00",
        "2026-04-16T-0:00",
        "2026-04-16T 8:00",
        "2026-04-16T++:00",
        "2026-04-16T北:00",
        "2026-04-16Té:00",
        "2026-04-16T1é:00",
        "2026-04-16é08:00",
        "北北北北08",
        "北北北x0812",
    ] {
        let expected = raw.get(11..13).and_then(|hour| hour.parse::<i32>().ok());
        assert_eq!(parse_local_hour(raw), expected, "{}", raw);
    }
}

#[test]
fn unreserved_names_are_encoded_as_themselves() {
    let name = "AZaz09-_.~";
    assert_eq!(percent_encode(name), name);
    assert_eq!(percent_encode(""), "");
}

#[test]
fn encoded_names_can_be_decoded() {
    for name in ["São Paulo", "a&b=c#d?", "100%", "北京", "\u{1f600}", "\n"] {
        let encoded = percent_encode(name);
        assert!(encoded
            .chars()
            .all(|c| c.is_ascii_alphanumeric() || "-_.~%".contains(c)));
        let mut bytes: Vec<u8> = Vec::new();
        let mut rest = encoded.as_bytes();
        while let Some(first) = rest.first() {
            if *first == b'%' {
                let digits = std::str::from_utf8(&rest[1..3]).unwrap();
                bytes.push(u8::from_str_radix(digits, 16).unwrap());
                rest = &rest[3..];
            } else {
                bytes.push(*first);
                rest = &rest[1..];
            }
        }
        assert_eq!(bytes, name.as_bytes());
    }
    assert_eq!(percent_encode("a/b"), "a%2Fb");
    assert_eq!(percent_encode("é"), "%C3%A9");
}

#[test]
fn addresses() {
    assert_eq!(
        search_url("New%20York", ""),
        "https://geocoding-api.open-meteo.com/v1/search?name=New%20York&count=5"
    );
    assert_eq!(
        search_url("%E5", "zh"),
        "https://geocoding-api.open-meteo.com/v1/search?name=%E5&count=5&language=zh"
    );
    let expected = "https://api.open-meteo.com/v1/forecast?latitude=39.9&longitude=116.4\
         &current=temperature_2m,relative_humidity_2m,apparent_temperature,weather_code,wind_speed_10m\
         &hourly=temperature_2m,weather_code,precipitation_probability\
         &daily=temperature_2m_max,temperature_2m_min,precipitation_probability_max,uv_index_max\
         &forecast_days=1\
         &timezone=";
    assert_eq!(
        forecast_url("39.9", "116.4", Some("Asia/Shanghai")),
        format!("{}Asia/Shanghai", expected)
    );
    assert_eq!(forecast_url("39.9", "116.4", None), format!("{}auto", expected));
}

#[test]
fn padding_of_any_kind_is_trimmed_away() {
    for before in ["", " ", "\t\n", "\u{3000}\u{a0}"] {
        for after in ["", "  ", "\u{2028}", "\r\n"] {
            for name in ["zh", "English", "fr", "", " en"] {
                let padded = format!("{}{}{}", before, name, after);
                assert_eq!(trim(&padded), trim(name));
                assert_eq!(normalize_language_code(&padded), normalize_language_code(name));
            }
        }
    }
}

#[test]
fn encoded_names_have_a_known_length() {
    for name in ["", "Beijing", "New York", "100%", "北京", "a&b=c"] {
        let reserved = name
            .bytes()
            .filter(|byte| !(byte.is_ascii_alphanumeric() || b"-_.~".contains(byte)))
            .count();
        let encoded = percent_encode(name);
        assert_eq!(encoded.len(), name.len() + 2 * reserved);
        let bytes = encoded.as_bytes();
        for (i, byte) in bytes.iter().enumerate() {
            if *byte == b'%' {
                assert!(b"0123456789ABCDEF".contains(&bytes[i + 1]));
                assert!(b"0123456789ABCDEF".contains(&bytes[i + 2]));
            }
        }
    }
}

#[test]
fn names_are_encoded_piece_by_piece() {
    let whole = percent_encode("São Paulo, 北京");
    assert_eq!(whole, percent_encode("São ") + &percent_encode("Paulo, 北京"));
}

#[test]
fn each_condition_has_its_own_word() {
    let names = ["sunny", "cloudy", "rainy", "snowy", "stormy", "foggy"];
    for a in names {
        for b in names {
            assert_eq!(condition_fallback_text(a) == condition_fallback_text(b), a == b);
        }
    }
}
