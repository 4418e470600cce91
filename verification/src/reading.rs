//! Measured values, and how they become the integers of a card.

use crate::decimal;
use crate::json::{self, Json};
use serde_json::Value;
use vstd::arithmetic::div_mod;
use vstd::arithmetic::power2;
use vstd::prelude::*;

verus! {

/// A measured value: a temperature, a speed, a percentage.
///
/// It is carried by the 64 bits of its IEEE 754 binary64 form: the sign bit on top, eleven
/// bits of exponent, and 52 bits of fraction.
#[derive(Clone, Copy, Debug, PartialEq, Eq, Structural)]
pub struct Reading {
    pub bits: u64,
}

impl Reading {
    /// Whether the sign bit is set.
    pub open spec fn negative(self) -> bool {
        self.bits >= 0x8000_0000_0000_0000
    }

    /// The eleven bits of the exponent field.
    pub open spec fn exponent_field(self) -> nat {
        ((self.bits / 0x10_0000_0000_0000) % 0x800) as nat
    }

    /// The 52 bits of the fraction field.
    pub open spec fn fraction_field(self) -> nat {
        (self.bits % 0x10_0000_0000_0000) as nat
    }

    /// Whether this is no number at all.
    pub open spec fn is_nan(self) -> bool {
        self.exponent_field() == 0x7ff && self.fraction_field() != 0
    }

    /// Whether this is one of the two infinities.
    pub open spec fn is_infinite(self) -> bool {
        self.exponent_field() == 0x7ff && self.fraction_field() == 0
    }

    /// Whether this denotes a number.
    pub open spec fn is_finite(self) -> bool {
        self.exponent_field() != 0x7ff
    }

    /// The integer that, scaled by two to the power [`Self::scale`], is the absolute value of
    /// a finite reading.
    pub open spec fn significand(self) -> nat {
        if self.exponent_field() == 0 {
            self.fraction_field()
        } else {
            self.fraction_field() + 0x10_0000_0000_0000
        }
    }

    /// The power of two that scales [`Self::significand`].
    pub open spec fn scale(self) -> int {
        if self.exponent_field() == 0 {
            -1074
        } else {
            self.exponent_field() - 1075
        }
    }

    /// The integer nearest to the absolute value of a finite reading; a half goes up.
    pub open spec fn rounded_magnitude(self) -> nat {
        if self.scale() >= 0 {
            self.significand() * power2::pow2(self.scale() as nat)
        } else {
            (self.significand() + power2::pow2((-self.scale() - 1) as nat)) / power2::pow2((-self.scale()) as nat)
        }
    }

    /// The reading as an integer of 64 bits: the nearest integer, where a half goes away from
    /// zero; the least or the greatest such integer where that one does not fit; and zero for
    /// what is no number.
    pub open spec fn as_integer(self) -> i64 {
        if self.is_nan() {
            0
        } else if self.negative() {
            if self.is_infinite() || self.rounded_magnitude() >= 0x8000_0000_0000_0000 {
                i64::MIN
            } else {
                -self.rounded_magnitude() as i64
            }
        } else {
            if self.is_infinite() || self.rounded_magnitude() >= 0x8000_0000_0000_0000 {
                i64::MAX
            } else {
                self.rounded_magnitude() as i64
            }
        }
    }
}

/// Two to the power `k`.
fn power_of_two(k: u64) -> (p: u64)
    requires
        k < 64,
    ensures
        p == power2::pow2(k as nat),
{
    let mut p: u64 = 1;
    let mut i: u64 = 0;
    proof {
        power2::lemma2_to64();
    }
    while i < k
        invariant
            i <= k < 64,
            p == power2::pow2(i as nat),
        decreases k - i,
    {
        proof {
            power2::lemma2_to64_rest();
            power2::lemma_pow2_unfold((i + 1) as nat);
            if i + 1 < 63 {
                power2::lemma_pow2_strictly_increases((i + 1) as nat, 63);
            }
        }
        p = p * 2;
        i = i + 1;
    }
    p
}

/// `value` as an integer of 64 bits, as [`Reading::as_integer`] says.
pub fn round_to_integer(value: Reading) -> (n: i64)
    ensures
        n == value.as_integer(),
{
    let negative = value.bits >= 0x8000_0000_0000_0000;
    let exponent: u64 = (value.bits / 0x10_0000_0000_0000) % 0x800;
    let fraction: u64 = value.bits % 0x10_0000_0000_0000;
    if exponent == 0x7ff {
        return if fraction != 0 {
            0
        } else if negative {
            i64::MIN
        } else {
            i64::MAX
        };
    }
    let ghost significand = value.significand();
    let ghost scale = value.scale();
    if exponent >= 1086 {
        proof {
            power2::lemma2_to64();
            if scale > 11 {
                power2::lemma_pow2_strictly_increases(11, scale as nat);
            }
            assert(significand * power2::pow2(scale as nat) >= 0x10_0000_0000_0000 * 2048)
                by (nonlinear_arith)
                requires
                    significand >= 0x10_0000_0000_0000,
                    power2::pow2(scale as nat) >= 2048,
            ;
        }
        return if negative {
            i64::MIN
        } else {
            i64::MAX
        };
    }
    let magnitude: u64 = if exponent >= 1075 {
        let p = power_of_two(exponent - 1075);
        let m: u64 = fraction + 0x10_0000_0000_0000;
        proof {
            power2::lemma2_to64();
            if scale < 10 {
                power2::lemma_pow2_strictly_increases(scale as nat, 10);
            }
            assert(m * p <= 0x1f_ffff_ffff_ffff * 1024) by (nonlinear_arith)
                requires
                    m <= 0x1f_ffff_ffff_ffff,
                    p <= 1024,
            ;
        }
        m * p
    } else if exponent <= 1020 {
        proof {
            power2::lemma2_to64();
            power2::lemma2_to64_rest();
            let d = power2::pow2((-scale) as nat);
            let h = power2::pow2((-scale - 1) as nat);
            power2::lemma_pow2_unfold((-scale) as nat);
            if -scale > 55 {
                power2::lemma_pow2_strictly_increases(55, (-scale) as nat);
            }
            assert(significand + h < d);
            assert((significand + h) / d == 0) by (nonlinear_arith)
                requires
                    0 <= significand + h < d,
            ;
        }
        0
    } else {
        let k: u64 = 1075 - exponent;
        let m: u64 = fraction + 0x10_0000_0000_0000;
        let half = power_of_two(k - 1);
        let whole = power_of_two(k);
        proof {
            power2::lemma2_to64();
            power2::lemma2_to64_rest();
            if k < 54 {
                power2::lemma_pow2_strictly_increases(k as nat, 54);
            }
            power2::lemma_pow2_unfold(k as nat);
            assert((m + half) / (whole as int) <= m + half) by (nonlinear_arith)
                requires
                    whole >= 1,
                    m + half >= 0,
            ;
        }
        (m + half) / whole
    };
    if negative {
        -(magnitude as i64)
    } else {
        magnitude as i64
    }
}

/// The JSON number that stands for `value` in structured card data.
///
/// Card data travels as canonical JSON, in which every number is an integer, so a measured
/// value is rounded before it is embedded.
pub fn matrix_safe_number(value: Reading) -> (number: Value)
    ensures
        json::json_of(number) == Json::Number(value.as_integer() as int),
{
    json::number(round_to_integer(value))
}

/// The JSON number for the first of `values`, or nothing where there is none.
pub open spec fn first_number_model(values: Seq<Reading>) -> Option<Json> {
    if values.len() > 0 {
        Some(Json::Number(values[0].as_integer() as int))
    } else {
        None
    }
}

/// The JSON number for the first of `values`, or `None` where there is none.
pub fn first_number(values: &[Reading]) -> (number: Option<Value>)
    ensures
        json::json_of_option(number) == first_number_model(values@),
{
    if values.len() > 0 {
        Some(matrix_safe_number(values[0]))
    } else {
        None
    }
}

/// The quotient of `n` and `d`, rounded to the nearest integer; a half goes to the even one.
pub open spec fn nearest_even_quotient(n: nat, d: nat) -> nat {
    let below = n / d;
    let twice_the_rest = 2 * (n % d);
    if twice_the_rest < d || (twice_the_rest == d && below % 2 == 0) {
        below
    } else {
        below + 1
    }
}

impl Reading {
    /// The absolute value of a finite reading in tenths, rounded; a half goes to the even
    /// tenth.
    pub open spec fn tenths(self) -> nat {
        if self.scale() >= 0 {
            10 * (self.significand() * power2::pow2(self.scale() as nat))
        } else {
            nearest_even_quotient(10 * self.significand(), power2::pow2((-self.scale()) as nat))
        }
    }

    /// The reading in decimal notation with one digit behind the point; a minus sign stands
    /// before it where the sign bit is set. The two infinities are `inf` and `-inf`, and what
    /// is no number is `NaN`.
    pub open spec fn one_decimal(self) -> Seq<char> {
        let sign = if self.negative() {
            "-"@
        } else {
            ""@
        };
        if self.is_nan() {
            "NaN"@
        } else if self.is_infinite() {
            sign + "inf"@
        } else {
            sign + decimal::decimal(self.tenths() / 10) + "."@ + decimal::decimal(
                self.tenths() % 10,
            )
        }
    }
}

/// `value` in decimal notation with one digit behind the point.
pub fn one_decimal_text(value: Reading) -> (written: String)
    ensures
        written@ == value.one_decimal(),
{
    let negative = value.bits >= 0x8000_0000_0000_0000;
    let exponent: u64 = (value.bits / 0x10_0000_0000_0000) % 0x800;
    let fraction: u64 = value.bits % 0x10_0000_0000_0000;
    if exponent == 0x7ff && fraction != 0 {
        return "NaN".to_string();
    }
    let mut written = if negative {
        "-".to_string()
    } else {
        "".to_string()
    };
    if exponent == 0x7ff {
        written.append("inf");
        return written;
    }
    let significand: u64 = if exponent == 0 {
        fraction
    } else {
        fraction + 0x10_0000_0000_0000
    };
    if exponent >= 1075 {
        proof {
            power2::lemma2_to64();
            let whole = significand as nat * power2::pow2(value.scale() as nat);
            assert(value.tenths() / 10 == whole);
            assert(value.tenths() % 10 == 0);
            assert(0 * power2::pow2(0) == 0);
        }
        written.append(decimal::decimal_text(significand, exponent - 1075).as_str());
        written.append(".");
        written.append(decimal::decimal_text(0, 0).as_str());
        return written;
    }
    let tenths: u64 = if exponent <= 1011 {
        proof {
            far_below_a_tenth(value);
        }
        0
    } else {
        let d = power_of_two(1075 - exponent);
        let n: u64 = 10 * significand;
        proof {
            power2::lemma_pow2_pos((1075 - exponent) as nat);
        }
        let below: u64 = n / d;
        let rest: u64 = n % d;
        proof {
            power2::lemma2_to64_rest();
            if 1075 - exponent < 63 {
                power2::lemma_pow2_strictly_increases((1075 - exponent) as nat, 63);
            }
            assert(below <= n) by (nonlinear_arith)
                requires
                    d >= 1,
                    below == n as int / d as int,
                    n >= 0,
            ;
        }
        if rest < d - rest || (rest == d - rest && below % 2 == 0) {
            below
        } else {
            below + 1
        }
    };
    proof {
        power2::lemma2_to64();
        assert((tenths / 10) as nat * power2::pow2(0) == tenths / 10);
        assert((tenths % 10) as nat * power2::pow2(0) == tenths % 10);
    }
    written.append(decimal::decimal_text(tenths / 10, 0).as_str());
    written.append(".");
    written.append(decimal::decimal_text(tenths % 10, 0).as_str());
    written
}

/// A reading with a small exponent is nearer to zero than to a tenth.
proof fn far_below_a_tenth(value: Reading)
    requires
        value.exponent_field() <= 1011,
    ensures
        value.tenths() == 0,
{
    power2::lemma2_to64_rest();
    power2::lemma2_to64();
    let k = (-value.scale()) as nat;
    if k > 64 {
        power2::lemma_pow2_strictly_increases(64, k);
    }
    let n = 10 * value.significand();
    let d = power2::pow2(k);
    assert(2 * n < d);
    assert(n / d == 0 && n % d == n) by (nonlinear_arith)
        requires
            0 <= n < d,
    ;
}

/// The rounded magnitude `n` of a finite reading of absolute value `x` is the integer with
/// `n - 1/2 <= x < n + 1/2`, which is `x` itself where `x` is an integer.
///
/// Both sides are multiplied by twice the denominator of `x`.
pub proof fn rounding_is_to_nearest(value: Reading)
    requires
        value.is_finite(),
    ensures
        value.scale() >= 0 ==> value.rounded_magnitude() == value.significand() * power2::pow2(
            value.scale() as nat,
        ),
        value.scale() < 0 ==> ({
            let n = value.rounded_magnitude();
            let d = power2::pow2((-value.scale()) as nat);
            &&& 2 * n * d - d <= 2 * value.significand() < 2 * n * d + d
            &&& value.significand() % d == 0 ==> n * d == value.significand()
        }),
{
    if value.scale() < 0 {
        let d = power2::pow2((-value.scale()) as nat) as int;
        let h = power2::pow2((-value.scale() - 1) as nat) as int;
        let s = value.significand() as int;
        let n = value.rounded_magnitude() as int;
        power2::lemma_pow2_unfold((-value.scale()) as nat);
        power2::lemma_pow2_pos((-value.scale() - 1) as nat);
        assert(d == 2 * h);
        div_mod::lemma_fundamental_div_mod(s + h, d);
        div_mod::lemma_mod_bound(s + h, d);
        div_mod::lemma_fundamental_div_mod(s, d);
        assert(2 * n * d == 2 * (d * n)) by (nonlinear_arith);
        if s % d == 0 {
            let q = s / d;
            assert(d * q == s);
            assert(n == q) by (nonlinear_arith)
                requires
                    d * q == s,
                    d == 2 * h,
                    h > 0,
                    d * n <= s + h < d * n + d,
            ;
            assert(n * d == d * n) by (nonlinear_arith);
        }
    }
}

/// The tenths of a finite reading of absolute value `x` are within half a tenth of `x`, and the
/// even ones where two are equally near.
///
/// Both sides are multiplied by twice the denominator of `x`.
pub proof fn tenths_are_nearest(value: Reading)
    requires
        value.is_finite(),
        value.scale() < 0,
    ensures
        ({
            let t = value.tenths();
            let d = power2::pow2((-value.scale()) as nat);
            let x = 10 * value.significand();
            &&& 2 * t * d - d <= 2 * x <= 2 * t * d + d
            &&& (2 * x == 2 * t * d + d || 2 * x == 2 * t * d - d) ==> t % 2 == 0
        }),
{
    let d = power2::pow2((-value.scale()) as nat) as int;
    let x = 10 * value.significand() as int;
    power2::lemma_pow2_pos((-value.scale()) as nat);
    div_mod::lemma_fundamental_div_mod(x, d);
    div_mod::lemma_mod_bound(x, d);
    let below = x / d;
    let t = value.tenths() as int;
    assert(2 * t * d == 2 * (d * t)) by (nonlinear_arith);
    assert(d * (below + 1) == d * below + d) by (nonlinear_arith);
}

impl Reading {
    /// Whether this reading is at most `other`, both being numbers or infinities. Negative zero
    /// comes before zero.
    pub open spec fn at_most(self, other: Reading) -> bool {
        if self.negative() {
            !other.negative() || other.bits <= self.bits
        } else {
            !other.negative() && self.bits <= other.bits
        }
    }
}

/// A reading that is at most another has an integer that is at most the other's.
pub proof fn rounding_is_monotone(a: Reading, b: Reading)
    requires
        !a.is_nan(),
        !b.is_nan(),
        a.at_most(b),
    ensures
        a.as_integer() <= b.as_integer(),
{
    if a.negative() == b.negative() && a.is_finite() && b.is_finite() {
        if a.negative() {
            magnitudes_grow(b, a);
        } else {
            magnitudes_grow(a, b);
        }
    }
}

/// Of finite readings of one sign, the greater bits have the greater rounded magnitude.
proof fn magnitudes_grow(low: Reading, high: Reading)
    requires
        low.negative() == high.negative(),
        low.bits <= high.bits,
        high.is_finite(),
    ensures
        low.is_finite(),
        low.rounded_magnitude() <= high.rounded_magnitude(),
    decreases high.bits - low.bits,
{
    if low.bits < high.bits {
        let next = Reading { bits: (low.bits + 1) as u64 };
        magnitudes_grow(next, high);
        magnitude_steps_up(low, next);
    }
}

/// The next reading after a finite one has no lesser rounded magnitude.
proof fn magnitude_steps_up(low: Reading, next: Reading)
    requires
        next.bits == low.bits + 1,
        low.negative() == next.negative(),
        next.is_finite(),
    ensures
        low.is_finite(),
        low.rounded_magnitude() <= next.rounded_magnitude(),
{
    let m = low.significand() as int;
    if next.scale() == low.scale() {
        assert(next.significand() == m + 1);
        same_scale_grows(low, next);
    } else {
        assert(next.scale() == low.scale() + 1);
        assert(next.significand() == 0x10_0000_0000_0000);
        assert(m + 1 == 2 * next.significand());
        let n = next.significand() as int;
        if low.scale() >= 0 {
            let p = power2::pow2(low.scale() as nat) as int;
            power2::lemma_pow2_unfold(next.scale() as nat);
            assert(m * p <= n * (2 * p)) by (nonlinear_arith)
                requires
                    m + 1 == 2 * n,
                    p >= 0,
            ;
        } else if low.scale() == -1 {
            power2::lemma2_to64();
            assert(low.rounded_magnitude() == (m + 1) / 2);
            assert(next.rounded_magnitude() == n * 1);
        } else {
            let k = (-low.scale()) as nat;
            let h = power2::pow2((k - 1) as nat) as int;
            let q = power2::pow2((k - 2) as nat) as int;
            power2::lemma_pow2_unfold(k);
            power2::lemma_pow2_unfold((k - 1) as nat);
            power2::lemma_pow2_pos((k - 1) as nat);
            assert(next.rounded_magnitude() == (n + q) / h);
            assert(low.rounded_magnitude() == (m + h) / (2 * h));
            div_mod::lemma_div_is_ordered(m + h, 2 * (n + q), 2 * h);
            assert((2 * (n + q)) / (2 * h) == (n + q) / h) by (nonlinear_arith)
                requires
                    h > 0,
                    n + q >= 0,
            ;
        }
    }
}

/// Of two finite readings of one scale, the greater significand has the greater rounded
/// magnitude.
proof fn same_scale_grows(low: Reading, high: Reading)
    requires
        low.scale() == high.scale(),
        low.significand() <= high.significand(),
    ensures
        low.rounded_magnitude() <= high.rounded_magnitude(),
{
    let m = low.significand() as int;
    let n = high.significand() as int;
    if low.scale() >= 0 {
        let p = power2::pow2(low.scale() as nat) as int;
        assert(m * p <= n * p) by (nonlinear_arith)
            requires
                m <= n,
                p >= 0,
        ;
    } else {
        let d = power2::pow2((-low.scale()) as nat) as int;
        let h = power2::pow2((-low.scale() - 1) as nat) as int;
        power2::lemma_pow2_pos((-low.scale()) as nat);
        div_mod::lemma_div_is_ordered(m + h, n + h, d);
    }
}

/// Changing the sign of a reading changes the sign of its integer, except that the least
/// integer of 64 bits answers to the greatest.
pub proof fn rounding_is_symmetric(value: Reading, opposite: Reading)
    requires
        opposite.bits as int == value.bits + 0x8000_0000_0000_0000,
    ensures
        opposite.as_integer() == -value.as_integer() || (opposite.as_integer() == i64::MIN
            && value.as_integer() == i64::MAX),
{
}

} // verus!
