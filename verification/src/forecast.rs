//! What the forecast service answers.

use crate::reading::Reading;
use vstd::prelude::*;
use vstd::utf8;

verus! {

/// A place that a search found.
#[derive(Clone, Debug)]
pub struct GeoLocation {
    /// Degrees north, in decimal notation.
    pub latitude: String,
    /// Degrees east, in decimal notation.
    pub longitude: String,
    pub name: String,
    pub timezone: Option<String>,
    pub population: Option<u64>,
}

/// The answer to a request for a forecast.
#[derive(Debug)]
pub struct WeatherResponse {
    pub current: Option<CurrentWeather>,
    pub hourly: Option<HourlyWeather>,
    pub daily: Option<DailyWeather>,
}

/// The weather of the moment.
#[derive(Clone, Copy, Debug)]
pub struct CurrentWeather {
    pub temperature_2m: Option<Reading>,
    pub relative_humidity_2m: Option<Reading>,
    pub apparent_temperature: Option<Reading>,
    pub weather_code: Option<u32>,
    pub wind_speed_10m: Option<Reading>,
}

/// The weather hour by hour: what stands at one index of the lists belongs to one hour.
#[derive(Debug)]
pub struct HourlyWeather {
    /// Local times, such as `2026-04-16T08:00`.
    pub time: Vec<String>,
    pub temperature_2m: Vec<Reading>,
    pub weather_code: Vec<u32>,
    pub precipitation_probability: Vec<Reading>,
}

/// The weather day by day: what stands at one index of the lists belongs to one day.
#[derive(Debug)]
pub struct DailyWeather {
    /// Local dates, such as `2026-04-16`.
    pub time: Vec<String>,
    pub temperature_2m_max: Vec<Reading>,
    pub temperature_2m_min: Vec<Reading>,
    pub precipitation_probability_max: Vec<Reading>,
    pub uv_index_max: Vec<Reading>,
}

impl Default for HourlyWeather {
    /// No hours at all.
    fn default() -> (hourly: Self)
        ensures
            hourly.time@.len() == 0,
            hourly.temperature_2m@.len() == 0,
            hourly.weather_code@.len() == 0,
            hourly.precipitation_probability@.len() == 0,
    {
        HourlyWeather {
            time: Vec::new(),
            temperature_2m: Vec::new(),
            weather_code: Vec::new(),
            precipitation_probability: Vec::new(),
        }
    }
}

impl Default for DailyWeather {
    /// No days at all.
    fn default() -> (daily: Self)
        ensures
            daily.time@.len() == 0,
            daily.temperature_2m_max@.len() == 0,
            daily.temperature_2m_min@.len() == 0,
            daily.precipitation_probability_max@.len() == 0,
            daily.uv_index_max@.len() == 0,
    {
        DailyWeather {
            time: Vec::new(),
            temperature_2m_max: Vec::new(),
            temperature_2m_min: Vec::new(),
            precipitation_probability_max: Vec::new(),
            uv_index_max: Vec::new(),
        }
    }
}

/// Whether `byte` is a decimal digit.
pub open spec fn decimal_digit(byte: u8) -> bool {
    48 <= byte <= 57
}

/// The integer that the two characters `first` and `second` write: two decimal digits, or a
/// sign and one digit.
pub open spec fn two_character_integer(first: u8, second: u8) -> Option<i32> {
    if !decimal_digit(second) {
        None
    } else if decimal_digit(first) {
        Some((10 * (first - 48) + (second - 48)) as i32)
    } else if first == 43 {
        Some((second - 48) as i32)
    } else if first == 45 {
        Some((48 - second) as i32)
    } else {
        None
    }
}

/// The hour of a local time such as `2026-04-16T08:00`: the integer that stands at the twelfth
/// and the thirteenth byte.
pub open spec fn local_hour(time: Seq<u8>) -> Option<i32> {
    if time.len() >= 13 {
        two_character_integer(time[11], time[12])
    } else {
        None
    }
}

/// The hour of a local time such as `2026-04-16T08:00`, or `None` where `raw` has no hour in
/// that place.
pub fn parse_local_hour(raw: &str) -> (hour: Option<i32>)
    ensures
        hour == local_hour(utf8::encode_utf8(raw@)),
{
    let bytes = raw.as_bytes();
    if bytes.len() < 13 {
        return None;
    }
    let first = bytes[11];
    let second = bytes[12];
    if second < 48 || second > 57 {
        return None;
    }
    let low: i32 = second as i32 - 48;
    if 48 <= first && first <= 57 {
        Some(10 * (first as i32 - 48) + low)
    } else if first == 43 {
        Some(low)
    } else if first == 45 {
        Some(-low)
    } else {
        None
    }
}

/// An hour, where there is one, has at most two digits, and one of them where it is negative.
pub proof fn local_hours_are_small(time: Seq<u8>)
    ensures
        local_hour(time) matches Some(hour) ==> -9 <= hour <= 99,
{
}

/// Two digits in the place of the hour are the hour, whatever stands around them.
pub proof fn local_hour_is_the_written_hour(time: Seq<u8>, hour: int)
    requires
        time.len() >= 13,
        0 <= hour <= 99,
        time[11] == 48 + hour / 10,
        time[12] == 48 + hour % 10,
    ensures
        local_hour(time) == Some(hour as i32),
{
}

} // verus!
