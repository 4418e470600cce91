//! Laws of measured values.

use crate::decimal;
use crate::json::Json;
use crate::reading::{self, Reading};
use vstd::arithmetic::power2;
use vstd::prelude::*;

verus! {

/// The reading with the given sign, exponent field and fraction field has these fields.
proof fn fields_are_read_back(negative: bool, exponent: int, fraction: int) -> (value: Reading)
    requires
        0 <= exponent < 0x800,
        0 <= fraction < 0x10_0000_0000_0000,
    ensures
        value.bits == (if negative {
            0x8000_0000_0000_0000int
        } else {
            0
        }) + exponent * 0x10_0000_0000_0000 + fraction,
        value.negative() == negative,
        value.exponent_field() == exponent,
        value.fraction_field() == fraction,
{
    let top: int = if negative {
        0x8000_0000_0000_0000
    } else {
        0
    };
    let bits = top + exponent * 0x10_0000_0000_0000 + fraction;
    let sign: int = if negative {
        1
    } else {
        0
    };
    assert(bits == 0x10_0000_0000_0000 * (sign * 0x800 + exponent) + fraction);
    assert(bits / 0x10_0000_0000_0000 == sign * 0x800 + exponent);
    assert(bits % 0x10_0000_0000_0000 == fraction);
    Reading { bits: bits as u64 }
}

/// Whatever the sign, the exponent field `exponent` and the fraction field `fraction` of a
/// number, its integer is the nearest one, and a half goes away from zero. The number is
/// `fraction`, with the hidden bit on top of it unless the exponent is zero, times a power of
/// two; one that is too large for 64 bits gives the integer at the end of their range.
pub proof fn the_integer_is_the_nearest(negative: bool, exponent: int, fraction: int, value: Reading)
    requires
        0 <= exponent < 0x7ff,
        0 <= fraction < 0x10_0000_0000_0000,
        value.bits == (if negative {
            0x8000_0000_0000_0000int
        } else {
            0
        }) + exponent * 0x10_0000_0000_0000 + fraction,
    ensures
        ({
            let written = if exponent == 0 {
                fraction
            } else {
                fraction + 0x10_0000_0000_0000
            };
            let shift = if exponent == 0 {
                1074
            } else {
                1075 - exponent
            };
            let magnitude = if negative {
                -value.as_integer()
            } else {
                value.as_integer() as int
            };
            &&& 0 <= magnitude
            &&& shift > 0 ==> {
                let unit = power2::pow2(shift as nat);
                2 * magnitude * unit - unit <= 2 * written < 2 * magnitude * unit + unit
            }
            &&& -10 <= shift <= 0 ==> magnitude == written * power2::pow2((-shift) as nat)
            &&& shift < -10 ==> value.as_integer() == (if negative {
                i64::MIN
            } else {
                i64::MAX
            })
        }),
{
    let same = fields_are_read_back(negative, exponent, fraction);
    assert(same == value);
    reading::rounding_is_to_nearest(value);
    let written = value.significand() as int;
    let shift = -value.scale();
    let n = value.rounded_magnitude() as int;
    power2::lemma2_to64();
    if shift > 0 {
        let unit = power2::pow2(shift as nat) as int;
        power2::lemma_pow2_pos(shift as nat);
        assert(n <= written + 1) by (nonlinear_arith)
            requires
                2 * n * unit - unit <= 2 * written,
                unit >= 1,
                written >= 0,
        ;
        let magnitude = if negative {
            -value.as_integer()
        } else {
            value.as_integer() as int
        };
        assert(magnitude == n);
        assert(2 * magnitude * unit == 2 * n * unit);
    } else {
        let factor = power2::pow2((-shift) as nat) as int;
        if shift < -11 {
            power2::lemma_pow2_strictly_increases(11, (-shift) as nat);
        } else if -10 < shift < 0 {
            power2::lemma_pow2_strictly_increases((-shift) as nat, 10);
        }
        if shift < -10 {
            assert(n >= 0x8000_0000_0000_0000) by (nonlinear_arith)
                requires
                    n == written * factor,
                    written >= 0x10_0000_0000_0000,
                    factor >= 2048,
            ;
        } else {
            assert(n < 0x8000_0000_0000_0000) by (nonlinear_arith)
                requires
                    n == written * factor,
                    0 <= written < 0x20_0000_0000_0000,
                    0 <= factor <= 1024,
            ;
            let magnitude = if negative {
                -value.as_integer()
            } else {
                value.as_integer() as int
            };
            assert(magnitude == n);
        }
    }
}

/// What is no number gives zero, and the two infinities give the ends of the range of 64 bits.
pub proof fn the_integer_of_no_number(negative: bool, fraction: int, value: Reading)
    requires
        0 <= fraction < 0x10_0000_0000_0000,
        value.bits == (if negative {
            0x8000_0000_0000_0000int
        } else {
            0
        }) + 0x7ff * 0x10_0000_0000_0000 + fraction,
    ensures
        value.as_integer() == (if fraction != 0 {
            0
        } else if negative {
            i64::MIN
        } else {
            i64::MAX
        }),
{
    let same = fields_are_read_back(negative, 0x7ff, fraction);
    assert(same == value);
}

/// With one decimal, a number is written with a minus sign where its sign is set, and otherwise
/// with no sign; and the tenths that are written are the nearest ones, the even ones where two
/// are equally near.
pub proof fn one_decimal_is_the_nearest_tenth(
    negative: bool,
    exponent: int,
    fraction: int,
    value: Reading,
)
    requires
        0 <= exponent < 0x7ff,
        0 <= fraction < 0x10_0000_0000_0000,
        value.bits == (if negative {
            0x8000_0000_0000_0000int
        } else {
            0
        }) + exponent * 0x10_0000_0000_0000 + fraction,
    ensures
        value.one_decimal() == (if negative {
            "-"@
        } else {
            ""@
        }) + decimal::decimal(value.tenths() / 10) + "."@ + decimal::decimal(value.tenths() % 10),
        ({
            let written = if exponent == 0 {
                fraction
            } else {
                fraction + 0x10_0000_0000_0000
            };
            let shift = if exponent == 0 {
                1074
            } else {
                1075 - exponent
            };
            &&& shift > 0 ==> {
                let unit = power2::pow2(shift as nat);
                let twice = 2 * value.tenths() * unit;
                &&& twice - unit <= 20 * written <= twice + unit
                &&& (20 * written == twice - unit || 20 * written == twice + unit)
                    ==> value.tenths() % 2 == 0
            }
            &&& shift <= 0 ==> value.tenths() == 10 * (written * power2::pow2((-shift) as nat))
        }),
{
    let same = fields_are_read_back(negative, exponent, fraction);
    assert(same == value);
    if value.scale() < 0 {
        reading::tenths_are_nearest(value);
    }
}

/// With one decimal, what is no number is written `NaN`, and an infinity `inf`, with a minus
/// sign where its sign is set.
pub proof fn one_decimal_of_no_number(negative: bool, fraction: int, value: Reading)
    requires
        0 <= fraction < 0x10_0000_0000_0000,
        value.bits == (if negative {
            0x8000_0000_0000_0000int
        } else {
            0
        }) + 0x7ff * 0x10_0000_0000_0000 + fraction,
    ensures
        fraction != 0 ==> value.one_decimal() == "NaN"@,
        fraction == 0 && negative ==> value.one_decimal() == "-inf"@,
        fraction == 0 && !negative ==> value.one_decimal() == "inf"@,
{
    let same = fields_are_read_back(negative, 0x7ff, fraction);
    assert(same == value);
    reveal_strlit("-");
    reveal_strlit("");
    reveal_strlit("inf");
    reveal_strlit("-inf");
    assert("-"@ + "inf"@ =~= "-inf"@);
    assert(""@ + "inf"@ =~= "inf"@);
}

/// The tenths that the text of a number shows and the integer of the same number are half a
/// unit apart at most.
pub proof fn tenths_agree_with_the_integer(value: Reading)
    requires
        value.is_finite(),
        -0x7fff_ffff_ffff_ffff <= value.as_integer() < 0x7fff_ffff_ffff_ffff,
    ensures
        value.negative() ==> -5 <= value.tenths() + 10 * value.as_integer() <= 5,
        !value.negative() ==> -5 <= value.tenths() - 10 * value.as_integer() <= 5,
{
    let n = value.rounded_magnitude() as int;
    let t = value.tenths() as int;
    reading::rounding_is_to_nearest(value);
    if value.scale() < 0 {
        reading::tenths_are_nearest(value);
        let d = power2::pow2((-value.scale()) as nat) as int;
        let s = value.significand() as int;
        power2::lemma_pow2_pos((-value.scale()) as nat);
        assert(-5 <= t - 10 * n <= 5) by (nonlinear_arith)
            requires
                d > 0,
                2 * n * d - d <= 2 * s <= 2 * n * d + d,
                2 * t * d - d <= 2 * (10 * s) <= 2 * t * d + d,
        ;
    }
}

/// Whether `higher` is greater than `lower` by one or more, for readings that have parts of an
/// integer. Both sides are multiplied by the two denominators.
pub open spec fn a_unit_apart(lower: Reading, higher: Reading) -> bool {
    let low = if lower.negative() {
        -lower.significand()
    } else {
        lower.significand() as int
    };
    let high = if higher.negative() {
        -higher.significand()
    } else {
        higher.significand() as int
    };
    let unit = power2::pow2((-lower.scale()) as nat);
    let parts = power2::pow2((-higher.scale()) as nat);
    low * parts + unit * parts <= high * unit
}

/// Readings that are one or more apart have different integers.
pub proof fn a_unit_apart_means_different_integers(lower: Reading, higher: Reading)
    requires
        lower.is_finite() && higher.is_finite(),
        lower.scale() < 0 && higher.scale() < 0,
        a_unit_apart(lower, higher),
    ensures
        lower.as_integer() < higher.as_integer(),
{
    let unit = power2::pow2((-lower.scale()) as nat) as int;
    let parts = power2::pow2((-higher.scale()) as nat) as int;
    power2::lemma_pow2_pos((-lower.scale()) as nat);
    power2::lemma_pow2_pos((-higher.scale()) as nat);
    let low = signed_bounds(lower);
    let high = signed_bounds(higher);
    let m = lower.as_integer() as int;
    let n = higher.as_integer() as int;
    if n <= m {
        assert(2 * (low * parts) >= (2 * m - 1) * unit * parts) by (nonlinear_arith)
            requires
                2 * low >= (2 * m - 1) * unit,
                parts > 0,
        ;
        assert(2 * (high * unit) <= (2 * n + 1) * parts * unit) by (nonlinear_arith)
            requires
                2 * high <= (2 * n + 1) * parts,
                unit > 0,
        ;
        assert((2 * n + 1) * parts * unit <= (2 * m - 1) * unit * parts + 2 * (unit * parts))
            by (nonlinear_arith)
            requires
                n <= m,
                unit > 0,
                parts > 0,
        ;
        if higher.negative() && !lower.negative() {
            assert(high * unit <= 0) by (nonlinear_arith)
                requires
                    high <= 0,
                    unit > 0,
            ;
            assert(low * parts + unit * parts > 0) by (nonlinear_arith)
                requires
                    low >= 0,
                    unit > 0,
                    parts > 0,
            ;
        } else if higher.negative() {
            assert(2 * (low * parts) > (2 * m - 1) * unit * parts) by (nonlinear_arith)
                requires
                    2 * low > (2 * m - 1) * unit,
                    parts > 0,
            ;
        } else {
            assert(2 * (high * unit) < (2 * n + 1) * parts * unit) by (nonlinear_arith)
                requires
                    2 * high < (2 * n + 1) * parts,
                    unit > 0,
            ;
        }
    }
}

/// The integer of a reading that has parts of an integer is within half of it, and the half
/// goes away from zero.
proof fn signed_bounds(value: Reading) -> (signed: int)
    requires
        value.is_finite(),
        value.scale() < 0,
    ensures
        signed == (if value.negative() {
            -value.significand()
        } else {
            value.significand() as int
        }),
        ({
            let unit = power2::pow2((-value.scale()) as nat) as int;
            let m = value.as_integer() as int;
            &&& (2 * m - 1) * unit <= 2 * signed <= (2 * m + 1) * unit
            &&& value.negative() ==> (2 * m - 1) * unit < 2 * signed
            &&& !value.negative() ==> 2 * signed < (2 * m + 1) * unit
        }),
{
    let negative = value.negative();
    let exponent = value.exponent_field() as int;
    let fraction = value.fraction_field() as int;
    let same = fields_are_read_back(negative, exponent, fraction);
    assert(value.bits == same.bits) by {
        let bits = value.bits as int;
        assert(bits == 0x10_0000_0000_0000 * (bits / 0x10_0000_0000_0000) + fraction);
    }
    the_integer_is_the_nearest(negative, exponent, fraction, value);
    let unit = power2::pow2((-value.scale()) as nat) as int;
    let m = value.as_integer() as int;
    let n = if negative {
        -m
    } else {
        m
    };
    assert((2 * n - 1) * unit == 2 * n * unit - unit) by (nonlinear_arith);
    assert((2 * n + 1) * unit == 2 * n * unit + unit) by (nonlinear_arith);
    assert((2 * m - 1) * unit == -((2 * (-m) + 1) * unit)) by (nonlinear_arith);
    assert((2 * m + 1) * unit == -((2 * (-m) - 1) * unit)) by (nonlinear_arith);
    if negative {
        -value.significand()
    } else {
        value.significand() as int
    }
}

/// The first of a list of readings becomes the number; an empty list becomes none.
pub proof fn the_first_reading_counts(values: Seq<Reading>)
    ensures
        values.len() == 0 ==> reading::first_number_model(values) is None,
        values.len() > 0 ==> reading::first_number_model(values) == Some(
            Json::Number(values[0].as_integer() as int),
        ),
{
}

/// A digit in decimal notation is its own character, and ten times a number plus a digit is
/// written as that number is, with the digit behind it.
pub proof fn decimal_notation_appends_digits(n: nat, low: nat)
    requires
        low < 10,
    ensures
        decimal::decimal(low) == seq![(48 + low) as char],
        n > 0 ==> decimal::decimal(10 * n + low) == decimal::decimal(n).push((48 + low) as char),
{
}

} // verus!
