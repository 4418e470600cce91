//! Comparison and trimming of text, character by character.

use vstd::prelude::*;

verus! {

/// The characters of a borrowed text, where there is one.
pub open spec fn borrowed(text: Option<&str>) -> Option<Seq<char>> {
    match text {
        Some(t) => Some(t@),
        None => None,
    }
}

/// The characters of an owned text, where there is one.
pub open spec fn owned(text: Option<String>) -> Option<Seq<char>> {
    match text {
        Some(t) => Some(t@),
        None => None,
    }
}

/// The characters of `text`, in order.
pub fn characters(text: &str) -> (chars: Vec<char>)
    ensures
        chars@ == text@,
{
    let mut chars: Vec<char> = Vec::new();
    for c in it: text.chars()
        invariant
            it.seq() == text@,
            chars@ == it.seq().take(it.index() as int),
    {
        chars.push(c);
    }
    chars
}

/// Whether `a` and `b` are the same text.
pub fn same_text(a: &str, b: &str) -> (same: bool)
    ensures
        same == (a@ == b@),
{
    let left = characters(a);
    let right = characters(b);
    if left.len() != right.len() {
        return false;
    }
    let mut i: usize = 0;
    while i < left.len()
        invariant
            left@ == a@,
            right@ == b@,
            left@.len() == right@.len(),
            i <= left@.len(),
            forall|j: int| 0 <= j < i ==> left@[j] == right@[j],
        decreases left@.len() - i,
    {
        if left[i] != right[i] {
            return false;
        }
        i = i + 1;
    }
    assert(left@ =~= right@);
    true
}

/// Whether `text` begins with `prefix`.
pub fn starts_with(text: &str, prefix: &str) -> (begins: bool)
    ensures
        begins == prefix@.is_prefix_of(text@),
{
    let whole = characters(text);
    let start = characters(prefix);
    if whole.len() < start.len() {
        return false;
    }
    let mut i: usize = 0;
    while i < start.len()
        invariant
            whole@ == text@,
            start@ == prefix@,
            start@.len() <= whole@.len(),
            i <= start@.len(),
            forall|j: int| 0 <= j < i ==> start@[j] == whole@[j],
        decreases start@.len() - i,
    {
        if start[i] != whole[i] {
            assert(whole@.take(start@.len() as int)[i as int] != start@[i as int]);
            return false;
        }
        i = i + 1;
    }
    assert(start@ =~= whole@.take(start@.len() as int));
    true
}

/// The characters that have the Unicode property White_Space.
pub open spec fn white_space(c: char) -> bool {
    ||| '\u{9}' <= c <= '\u{d}'
    ||| c == ' '
    ||| c == '\u{85}'
    ||| c == '\u{a0}'
    ||| c == '\u{1680}'
    ||| '\u{2000}' <= c <= '\u{200a}'
    ||| c == '\u{2028}'
    ||| c == '\u{2029}'
    ||| c == '\u{202f}'
    ||| c == '\u{205f}'
    ||| c == '\u{3000}'
}

/// Whether `c` has the Unicode property White_Space.
pub fn is_white_space(c: char) -> (white: bool)
    ensures
        white == white_space(c),
{
    ('\u{9}' <= c && c <= '\u{d}') || c == ' ' || c == '\u{85}' || c == '\u{a0}' || c == '\u{1680}'
        || ('\u{2000}' <= c && c <= '\u{200a}') || c == '\u{2028}' || c == '\u{2029}' || c == '\u{202f}'
        || c == '\u{205f}' || c == '\u{3000}'
}

/// `s` without the white space at its start.
pub open spec fn without_leading_space(s: Seq<char>) -> Seq<char>
    decreases s.len(),
{
    if s.len() > 0 && white_space(s.first()) {
        without_leading_space(s.drop_first())
    } else {
        s
    }
}

/// `s` without the white space at its end.
pub open spec fn without_trailing_space(s: Seq<char>) -> Seq<char>
    decreases s.len(),
{
    if s.len() > 0 && white_space(s.last()) {
        without_trailing_space(s.drop_last())
    } else {
        s
    }
}

/// `s` without the white space at either end.
pub open spec fn trimmed(s: Seq<char>) -> Seq<char> {
    without_trailing_space(without_leading_space(s))
}

/// `text` without the white space at either end.
pub fn trim(text: &str) -> (inner: &str)
    ensures
        inner@ == trimmed(text@),
{
    let chars = characters(text);
    let mut from: usize = 0;
    assert(text@.skip(0) =~= text@);
    while from < chars.len() && is_white_space(chars[from])
        invariant
            chars@ == text@,
            from <= chars@.len(),
            without_leading_space(text@) == without_leading_space(text@.skip(from as int)),
        decreases chars@.len() - from,
    {
        assert(text@.skip(from as int).drop_first() =~= text@.skip(from + 1));
        from = from + 1;
    }
    assert(without_leading_space(text@) == text@.skip(from as int));
    let mut to: usize = chars.len();
    assert(text@.subrange(from as int, to as int) =~= text@.skip(from as int));
    while from < to && is_white_space(chars[to - 1])
        invariant
            chars@ == text@,
            from <= to <= chars@.len(),
            trimmed(text@) == without_trailing_space(text@.subrange(from as int, to as int)),
        decreases to,
    {
        assert(text@.subrange(from as int, to as int).drop_last() =~= text@.subrange(
            from as int,
            to - 1,
        ));
        to = to - 1;
    }
    text.substring_char(from, to)
}

/// Whether `s` holds nothing but white space.
pub open spec fn blank(s: Seq<char>) -> bool {
    forall|i: int| 0 <= i < s.len() ==> white_space(#[trigger] s[i])
}

/// Whether `text` holds nothing but white space.
pub fn is_blank(text: &str) -> (empty: bool)
    ensures
        empty == blank(text@),
{
    proof {
        trimmed_is_empty_when_blank(text@);
    }
    trim(text).is_empty()
}

/// Trimming leaves nothing of a text exactly where the text is blank.
pub proof fn trimmed_is_empty_when_blank(s: Seq<char>)
    ensures
        trimmed(s).len() == 0 <==> blank(s),
{
    let inner = without_leading_space(s);
    leading_space_is_all_of_a_blank(s);
    no_leading_space_left(s);
    no_trailing_space_left(inner);
    if inner.len() > 0 && trimmed(s).len() == 0 {
        trailing_space_is_all_of_a_blank(inner);
        assert(white_space(inner[0]));
    }
}

/// White space put before and behind a text is trimmed away.
pub proof fn trimming_ignores_padding(before: Seq<char>, s: Seq<char>, after: Seq<char>)
    requires
        blank(before),
        blank(after),
    ensures
        trimmed(before + s + after) == trimmed(s),
{
    let padded = before + s + after;
    if blank(s) {
        assert(blank(padded));
        trimmed_is_empty_when_blank(s);
        trimmed_is_empty_when_blank(padded);
        assert(trimmed(padded) =~= trimmed(s));
    } else {
        assert(padded =~= before + (s + after));
        leading_blank_is_dropped(before, s + after);
        leading_space_ends_in_the_text(s, after);
        trailing_blank_is_dropped(without_leading_space(s), after);
    }
}

/// White space put before a text is part of its leading white space.
proof fn leading_blank_is_dropped(before: Seq<char>, s: Seq<char>)
    requires
        blank(before),
    ensures
        without_leading_space(before + s) == without_leading_space(s),
    decreases before.len(),
{
    if before.len() > 0 {
        assert((before + s).drop_first() =~= before.drop_first() + s);
        assert(white_space(before[0]));
        assert(forall|i: int|
            0 <= i < before.drop_first().len() ==> before.drop_first()[i] == before[i + 1]);
        leading_blank_is_dropped(before.drop_first(), s);
    } else {
        assert(before + s =~= s);
    }
}

/// The leading white space of a text that is not blank ends within it, whatever stands behind.
proof fn leading_space_ends_in_the_text(s: Seq<char>, after: Seq<char>)
    requires
        !blank(s),
    ensures
        without_leading_space(s + after) == without_leading_space(s) + after,
    decreases s.len(),
{
    if white_space(s.first()) {
        assert((s + after).drop_first() =~= s.drop_first() + after);
        leading_space_is_all_of_a_blank(s);
        leading_space_is_all_of_a_blank(s.drop_first());
        leading_space_ends_in_the_text(s.drop_first(), after);
    }
}

/// White space put behind a text is part of its trailing white space.
proof fn trailing_blank_is_dropped(s: Seq<char>, after: Seq<char>)
    requires
        blank(after),
    ensures
        without_trailing_space(s + after) == without_trailing_space(s),
    decreases after.len(),
{
    if after.len() > 0 {
        assert((s + after).drop_last() =~= s + after.drop_last());
        assert(white_space(after[after.len() - 1]));
        trailing_blank_is_dropped(s, after.drop_last());
    } else {
        assert(s + after =~= s);
    }
}

/// The leading white space is all of a text exactly where the text is blank.
proof fn leading_space_is_all_of_a_blank(s: Seq<char>)
    ensures
        without_leading_space(s).len() == 0 <==> blank(s),
    decreases s.len(),
{
    if s.len() > 0 {
        if white_space(s.first()) {
            leading_space_is_all_of_a_blank(s.drop_first());
            assert forall|i: int| blank(s.drop_first()) && 0 <= i < s.len() implies white_space(
                #[trigger] s[i],
            ) by {
                if i > 0 {
                    assert(s[i] == s.drop_first()[i - 1]);
                }
            }
            assert forall|i: int| blank(s) && 0 <= i < s.drop_first().len() implies white_space(
                #[trigger] s.drop_first()[i],
            ) by {
                assert(s.drop_first()[i] == s[i + 1]);
            }
        } else {
            assert(!white_space(s[0]));
        }
    }
}

/// Where the trailing white space is all of a text, the text is blank.
proof fn trailing_space_is_all_of_a_blank(s: Seq<char>)
    requires
        without_trailing_space(s).len() == 0,
    ensures
        blank(s),
    decreases s.len(),
{
    if s.len() > 0 {
        trailing_space_is_all_of_a_blank(s.drop_last());
        assert forall|i: int| 0 <= i < s.len() implies white_space(#[trigger] s[i]) by {
            if i < s.len() - 1 {
                assert(s[i] == s.drop_last()[i]);
            }
        }
    }
}

/// Trimming a text that was trimmed changes nothing.
pub proof fn trimmed_is_idempotent(s: Seq<char>)
    ensures
        trimmed(trimmed(s)) == trimmed(s),
{
    let inner = without_leading_space(s);
    no_leading_space_left(s);
    no_trailing_space_left(inner);
    let t = trimmed(s);
    if t.len() > 0 {
        assert(without_leading_space(t) == t);
    }
}

/// What is left after the leading white space is gone begins with no white space.
proof fn no_leading_space_left(s: Seq<char>)
    ensures
        ({
            let rest = without_leading_space(s);
            rest.len() > 0 ==> !white_space(rest.first())
        }),
    decreases s.len(),
{
    if s.len() > 0 && white_space(s.first()) {
        no_leading_space_left(s.drop_first());
    }
}

/// What is left after the trailing white space is gone ends with no white space, and is a
/// prefix of the text.
proof fn no_trailing_space_left(s: Seq<char>)
    ensures
        ({
            let rest = without_trailing_space(s);
            &&& rest.len() > 0 ==> !white_space(rest.last())
            &&& rest.len() > 0 ==> rest.first() == s.first()
        }),
    decreases s.len(),
{
    if s.len() > 0 && white_space(s.last()) {
        no_trailing_space_left(s.drop_last());
    }
}

} // verus!
