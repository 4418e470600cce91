//! Natural numbers in decimal notation.

use vstd::arithmetic::power2;
use vstd::prelude::*;

verus! {

/// The decimal digit of value `n`.
pub open spec fn digit(n: int) -> char {
    (48 + n) as char
}

/// `n` in decimal notation, without leading zeros.
pub open spec fn decimal(n: nat) -> Seq<char>
    decreases n,
{
    if n < 10 {
        seq![digit(n as int)]
    } else {
        decimal(n / 10).push(digit(n as int % 10))
    }
}

/// The number whose lowest digits are `low`, the lowest first, and which is `high` without
/// them.
pub open spec fn number_with(low: Seq<u8>, high: nat) -> nat
    decreases low.len(),
{
    if low.len() == 0 {
        high
    } else {
        (low.first() + 10 * number_with(low.drop_first(), high)) as nat
    }
}

/// Whether `digits`, the lowest first, are decimal digits and end with no zero, except where
/// zero is all there is.
spec fn proper(digits: Seq<u8>) -> bool {
    &&& digits.len() > 0
    &&& forall|i: int| 0 <= i < digits.len() ==> #[trigger] digits[i] < 10
    &&& digits.len() > 1 ==> digits.last() > 0
}

/// One more digit above `low` is one digit less in what stands above.
proof fn push_moves_a_digit(low: Seq<u8>, next: u8, high: nat)
    ensures
        number_with(low.push(next), high) == number_with(low, (next + 10 * high) as nat),
    decreases low.len(),
{
    if low.len() > 0 {
        assert(low.push(next).drop_first() =~= low.drop_first().push(next));
        push_moves_a_digit(low.drop_first(), next, high);
    } else {
        assert(low.push(next).drop_first() =~= low);
        reveal_with_fuel(number_with, 2);
    }
}

/// The digits of a number, from the highest down, are its decimal notation.
proof fn digits_write_the_number(digits: Seq<u8>)
    requires
        proper(digits),
    ensures
        decimal(number_with(digits, 0)) == Seq::new(
            digits.len(),
            |i: int| digit(digits[digits.len() - 1 - i] as int),
        ),
        digits.last() > 0 ==> number_with(digits, 0) > 0,
    decreases digits.len(),
{
    let n = number_with(digits, 0);
    let written = Seq::new(digits.len(), |i: int| digit(digits[digits.len() - 1 - i] as int));
    if digits.len() == 1 {
        assert(digits.drop_first().len() == 0);
        assert(n == digits[0]);
        assert(decimal(n) =~= written);
    } else {
        let rest = digits.drop_first();
        assert(rest.last() == digits.last());
        digits_write_the_number(rest);
        assert(n == digits[0] + 10 * number_with(rest, 0));
        assert(n / 10 == number_with(rest, 0));
        assert(decimal(n) =~= written);
    }
}

/// The decimal digits of `n`, the lowest first.
fn digits_of(n: u64) -> (digits: Vec<u8>)
    ensures
        proper(digits@),
        number_with(digits@, 0) == n,
{
    let mut digits: Vec<u8> = Vec::new();
    let mut rest: u64 = n;
    while rest >= 10
        invariant
            forall|i: int| 0 <= i < digits@.len() ==> #[trigger] digits@[i] < 10,
            number_with(digits@, rest as nat) == n,
            digits@.len() > 0 ==> rest > 0,
        decreases rest,
    {
        proof {
            push_moves_a_digit(digits@, (rest % 10) as u8, (rest / 10) as nat);
        }
        digits.push((rest % 10) as u8);
        rest = rest / 10;
    }
    proof {
        push_moves_a_digit(digits@, rest as u8, 0);
    }
    digits.push(rest as u8);
    digits
}

/// The decimal digits of twice the number of `digits`, the lowest first.
fn doubled(digits: &Vec<u8>) -> (twice: Vec<u8>)
    requires
        proper(digits@),
    ensures
        proper(twice@),
        number_with(twice@, 0) == 2 * number_with(digits@, 0),
{
    let mut twice: Vec<u8> = Vec::new();
    let mut carry: u8 = 0;
    let mut i: usize = 0;
    assert(digits@.skip(0) =~= digits@);
    while i < digits.len()
        invariant
            proper(digits@),
            i <= digits@.len(),
            twice@.len() == i,
            carry <= 1,
            forall|j: int| 0 <= j < twice@.len() ==> #[trigger] twice@[j] < 10,
            number_with(
                twice@,
                (carry + 2 * number_with(digits@.skip(i as int), 0)) as nat,
            ) == 2 * number_with(digits@, 0),
            i > 1 && i == digits@.len() ==> carry > 0 || twice@.last() > 0,
        decreases digits@.len() - i,
    {
        let sum: u8 = 2 * digits[i] + carry;
        proof {
            let rest = digits@.skip(i as int);
            assert(rest.drop_first() =~= digits@.skip(i + 1));
            let high = number_with(digits@.skip(i + 1), 0);
            assert(number_with(rest, 0) == digits@[i as int] + 10 * high);
            push_moves_a_digit(twice@, (sum % 10) as u8, ((sum / 10) as int + 2 * high) as nat);
            assert(sum % 10 + 10 * ((sum / 10) as int + 2 * high) == carry + 2 * number_with(
                rest,
                0,
            ));
        }
        twice.push(sum % 10);
        carry = sum / 10;
        i = i + 1;
    }
    assert(number_with(digits@.skip(i as int), 0) == 0);
    if carry > 0 {
        proof {
            push_moves_a_digit(twice@, carry, 0);
        }
        twice.push(carry);
    }
    twice
}

/// The decimal digit of value `n` as a text.
fn digit_text(n: u8) -> (written: &'static str)
    requires
        n < 10,
    ensures
        written@ == seq![digit(n as int)],
{
    let all: &'static str = "0123456789";
    proof {
        reveal_strlit("0123456789");
    }
    let written = all.substring_ascii(n as usize, n as usize + 1);
    assert(written@ =~= seq![digit(n as int)]);
    written
}

/// `n` times two to the power `k`, in decimal notation.
pub fn decimal_text(n: u64, k: u64) -> (written: String)
    ensures
        written@ == decimal(n as nat * power2::pow2(k as nat)),
{
    let mut digits = digits_of(n);
    let mut i: u64 = 0;
    proof {
        power2::lemma2_to64();
    }
    while i < k
        invariant
            i <= k,
            proper(digits@),
            number_with(digits@, 0) == n as nat * power2::pow2(i as nat),
        decreases k - i,
    {
        proof {
            power2::lemma_pow2_unfold((i + 1) as nat);
            let p = power2::pow2(i as nat);
            assert(n as nat * (2 * p) == 2 * (n as nat * p)) by (nonlinear_arith);
        }
        digits = doubled(&digits);
        i = i + 1;
    }
    let mut written = String::new();
    let mut left: usize = digits.len();
    let ghost whole = Seq::new(
        digits@.len(),
        |j: int| digit(digits@[digits@.len() - 1 - j] as int),
    );
    while left > 0
        invariant
            proper(digits@),
            left <= digits@.len(),
            whole == Seq::new(
                digits@.len(),
                |j: int| digit(digits@[digits@.len() - 1 - j] as int),
            ),
            written@ == whole.take(digits@.len() - left),
        decreases left,
    {
        written.append(digit_text(digits[left - 1]));
        assert(written@ =~= whole.take(digits@.len() - left + 1));
        left = left - 1;
    }
    proof {
        digits_write_the_number(digits@);
        assert(written@ =~= whole);
    }
    written
}

} // verus!
