//! The time of day.

use vstd::prelude::*;

verus! {

/// Whether `c` is a decimal digit.
pub open spec fn is_digit(c: char) -> bool {
    '0' <= c <= '9'
}

/// Whether `s` is made of decimal digits.
pub open spec fn all_digits(s: Seq<char>) -> bool {
    forall|i: int| 0 <= i < s.len() ==> is_digit(#[trigger] s[i])
}

/// Whether two decimal digits stand at the index `i` of `s`, and write a number from `least` to
/// `most`.
pub open spec fn two_digits_at(s: Seq<char>, i: int, least: int, most: int) -> bool {
    &&& is_digit(s[i])
    &&& is_digit(s[i + 1])
    &&& least <= 10 * (s[i] as int - '0' as int) + (s[i + 1] as int - '0' as int) <= most
}

/// Whether `s` writes a year: four digits, or, for a year that has more or stands before the
/// year zero, a sign and four digits or more.
pub open spec fn is_year(s: Seq<char>) -> bool {
    ||| s.len() == 4 && all_digits(s)
    ||| s.len() >= 5 && (s[0] == '+' || s[0] == '-') && all_digits(s.skip(1))
}

/// Whether `s` writes the rest of a date and a time of day, as `-04-16T08:30:00` does.
pub open spec fn is_day_and_time(s: Seq<char>) -> bool {
    &&& s.len() == 15
    &&& s[0] == '-' && two_digits_at(s, 1, 1, 12)
    &&& s[3] == '-' && two_digits_at(s, 4, 1, 31)
    &&& s[6] == 'T' && two_digits_at(s, 7, 0, 23)
    &&& s[9] == ':' && two_digits_at(s, 10, 0, 59)
    &&& s[12] == ':' && two_digits_at(s, 13, 0, 59)
}

/// Whether `s` writes a fraction of a second: nothing, or a point and three, six or nine digits.
pub open spec fn is_fraction(s: Seq<char>) -> bool {
    ||| s.len() == 0
    ||| (s.len() == 4 || s.len() == 7 || s.len() == 10) && s[0] == '.' && all_digits(s.skip(1))
}

/// Whether `stamp` is made of the given year, day with time, and fraction, and of the offset of
/// UTC.
pub open spec fn stamp_of_parts(
    stamp: Seq<char>,
    year: Seq<char>,
    day_and_time: Seq<char>,
    fraction: Seq<char>,
) -> bool {
    &&& is_year(year)
    &&& is_day_and_time(day_and_time)
    &&& is_fraction(fraction)
    &&& stamp == year + day_and_time + fraction + "+00:00"@
}

/// Whether `stamp` writes a time in UTC as RFC 3339 does, such as
/// `2026-04-16T08:30:00.125+00:00`.
pub open spec fn stamped_in_utc(stamp: Seq<char>) -> bool {
    exists|year: Seq<char>, day_and_time: Seq<char>, fraction: Seq<char>| #[trigger]
        stamp_of_parts(stamp, year, day_and_time, fraction)
}

/// `chrono::Utc::now` with `chrono::DateTime::to_rfc3339`: the current time as RFC 3339 writes
/// it. A year, the day and the time of day to the second come first, then as many digits of the
/// second's fraction as it needs, in groups of three, and last the offset of UTC.
///
/// Which time that is stays open: it is the time of the call.
#[verifier::external_body]
pub(crate) fn current_time() -> (stamp: String)
    ensures
        stamped_in_utc(stamp@),
{
    chrono::Utc::now().to_rfc3339()
}

} // verus!
