//! What the operations on strings are for.

use crate::text::{ascii_lower, ascii_upper, contains_text, decimal_of, integer_text, is_blank};
use crate::text::{is_whitespace, joined, lemma_trimmed_empty_iff_blank, lowercased, prefix_of};
use crate::text::{replaced, split_once_of, text_le, trim_end_of, trim_start_of, trimmed, uppercased};
use vstd::prelude::*;

verus! {

/// Blanks, tabs and the ends of lines are whitespace; what is printed of ASCII is not.
pub proof fn lemma_whitespace(c: char)
    ensures
        c == ' ' || c == '\t' || c == '\n' || c == '\r' ==> is_whitespace(c),
        '!' <= c <= '~' ==> !is_whitespace(c),
{
}

proof fn lemma_trim_start_drops(a: Seq<char>, s: Seq<char>)
    requires
        is_blank(a),
        s.len() > 0,
        !is_whitespace(s[0]),
    ensures
        trim_start_of(a + s) == s,
    decreases a.len(),
{
    if a.len() == 0 {
        assert(a + s =~= s);
    } else {
        assert(is_whitespace(a[0]));
        assert((a + s).drop_first() =~= a.drop_first() + s);
        assert forall|i: int| 0 <= i < a.drop_first().len() implies is_whitespace(
            #[trigger] a.drop_first()[i],
        ) by {
            assert(is_whitespace(a[i + 1]));
        }
        lemma_trim_start_drops(a.drop_first(), s);
    }
}

proof fn lemma_trim_end_drops(s: Seq<char>, b: Seq<char>)
    requires
        is_blank(b),
        s.len() > 0,
        !is_whitespace(s.last()),
    ensures
        trim_end_of(s + b) == s,
    decreases b.len(),
{
    if b.len() == 0 {
        assert(s + b =~= s);
    } else {
        assert(is_whitespace(b[b.len() - 1]));
        assert((s + b).drop_last() =~= s + b.drop_last());
        assert forall|i: int| 0 <= i < b.drop_last().len() implies is_whitespace(
            #[trigger] b.drop_last()[i],
        ) by {
            assert(is_whitespace(b[i]));
        }
        lemma_trim_end_drops(s, b.drop_last());
    }
}

/// Trimming takes the whitespace from both ends and nothing else.
pub proof fn lemma_trimmed_between(a: Seq<char>, s: Seq<char>, b: Seq<char>)
    requires
        is_blank(a),
        is_blank(b),
        s.len() > 0,
        !is_whitespace(s[0]),
        !is_whitespace(s.last()),
    ensures
        trimmed(a + s + b) == s,
        trimmed(a + b).len() == 0,
{
    assert(a + s + b =~= a + (s + b));
    assert((s + b)[0] == s[0]);
    lemma_trim_start_drops(a, s + b);
    lemma_trim_end_drops(s, b);
    assert forall|i: int| 0 <= i < (a + b).len() implies is_whitespace(#[trigger] (a + b)[i]) by {
        if i < a.len() {
            assert(is_whitespace(a[i]));
        } else {
            assert(is_whitespace(b[i - a.len()]));
        }
    }
    lemma_trimmed_empty_iff_blank(a + b);
}

/// Changing case moves each ASCII letter to its counterpart, place by place, and leaves every other
/// character alone.
pub proof fn lemma_case(s: Seq<char>, i: int)
    requires
        0 <= i < s.len(),
    ensures
        lowercased(s).len() == s.len() && uppercased(s).len() == s.len(),
        'A' <= s[i] <= 'Z' ==> lowercased(s)[i] as int == s[i] as int + 32 && uppercased(s)[i]
            == s[i],
        'a' <= s[i] <= 'z' ==> uppercased(s)[i] as int == s[i] as int - 32 && lowercased(s)[i]
            == s[i],
        !('A' <= s[i] <= 'Z') && !('a' <= s[i] <= 'z') ==> lowercased(s)[i] == s[i] && uppercased(
            s,
        )[i] == s[i],
        ascii_lower(s[i]) == lowercased(s)[i] && ascii_upper(s[i]) == uppercased(s)[i],
{
}

/// The number that decimal digits stand for.
pub open spec fn number_of(digits: Seq<char>) -> int
    decreases digits.len(),
{
    if digits.len() == 0 {
        0
    } else {
        number_of(digits.drop_last()) * 10 + (digits.last() as int - '0' as int)
    }
}

proof fn lemma_decimal(n: nat)
    ensures
        number_of(decimal_of(n)) == n,
        decimal_of(n).len() > 0,
        forall|i: int| 0 <= i < decimal_of(n).len() ==> '0' <= #[trigger] decimal_of(n)[i] <= '9',
        n > 0 ==> decimal_of(n)[0] != '0',
    decreases n,
{
    let digits = decimal_of(n);
    if n < 10 {
        assert(digits.drop_last() =~= Seq::empty());
        assert(number_of(digits.drop_last()) == 0);
    } else {
        lemma_decimal(n / 10);
        assert(digits.drop_last() =~= decimal_of(n / 10));
        assert(digits[0] == decimal_of(n / 10)[0]);
    }
}

/// The digits of a number stand for it, without a zero in front, and a minus is put before them
/// exactly where it is below zero.
pub proof fn lemma_integer_text(n: int)
    ensures
        n >= 0 ==> number_of(integer_text(n)) == n,
        n < 0 ==> integer_text(n).len() > 1 && integer_text(n)[0] == '-' && number_of(
            integer_text(n).drop_first(),
        ) == -n,
        n > 0 ==> integer_text(n)[0] != '0',
        n == 0 ==> integer_text(n).len() == 1,
        forall|i: int|
            0 < i < integer_text(n).len() ==> '0' <= #[trigger] integer_text(n)[i] <= '9',
        n >= 0 ==> '0' <= integer_text(n)[0] <= '9',
{
    reveal_strlit("-");
    if n < 0 {
        lemma_decimal((-n) as nat);
        assert(integer_text(n).drop_first() =~= decimal_of((-n) as nat));
        assert forall|i: int| 0 < i < integer_text(n).len() implies '0'
            <= #[trigger] integer_text(n)[i] <= '9' by {
            assert(integer_text(n)[i] == decimal_of((-n) as nat)[i - 1]);
        }
    } else {
        lemma_decimal(n as nat);
    }
}

/// Joining puts the separator between each part and the next, and nowhere else.
pub proof fn lemma_joined(parts: Seq<Seq<char>>, part: Seq<char>, separator: Seq<char>)
    ensures
        joined(Seq::empty(), separator) == Seq::<char>::empty(),
        joined(seq![part], separator) == part,
        parts.len() > 0 ==> joined(parts.push(part), separator) == joined(parts, separator)
            + separator + part,
{
    assert(parts.push(part).drop_last() =~= parts);
}

/// A text holds another exactly where it is that text with something before and behind it.
pub proof fn lemma_contains_text(hay: Seq<char>, needle: Seq<char>, a: Seq<char>, b: Seq<char>)
    ensures
        contains_text(a + needle + b, needle),
        contains_text(hay, needle) ==> exists|before: Seq<char>, behind: Seq<char>|
            hay == #[trigger] (before + needle + behind),
{
    let whole = a + needle + b;
    let at = a.len() as int;
    assert(whole.subrange(at, at + needle.len()) =~= needle);
    if contains_text(hay, needle) {
        let i = choose|i: int|
            0 <= i <= hay.len() - needle.len() && #[trigger] hay.subrange(i, i + needle.len())
                == needle;
        assert(hay =~= hay.take(i) + needle + hay.skip(i + needle.len()));
    }
}

/// A text is cut at its first separator, which goes; one without any is not cut.
pub proof fn lemma_split_once(a: Seq<char>, separator: char, b: Seq<char>)
    requires
        !a.contains(separator),
    ensures
        split_once_of(a.push(separator) + b, separator) == Some((a, b)),
        split_once_of(a, separator) is None,
    decreases a.len(),
{
    let s = a.push(separator) + b;
    if a.len() == 0 {
        assert(s.drop_first() =~= b);
        assert(a =~= Seq::empty());
    } else {
        let rest = a.drop_first();
        assert(a[0] != separator);
        assert forall|i: int| 0 <= i < rest.len() implies rest[i] != separator by {
            assert(a[i + 1] != separator);
        }
        lemma_split_once(rest, separator, b);
        assert(s.drop_first() =~= rest.push(separator) + b);
        assert(seq![a[0]] + rest =~= a);
    }
}

/// Replacing turns one character into another, place by place.
pub proof fn lemma_replaced(s: Seq<char>, from: char, to: char, i: int)
    requires
        0 <= i < s.len(),
    ensures
        replaced(s, from, to).len() == s.len(),
        s[i] == from ==> replaced(s, from, to)[i] == to,
        s[i] != from ==> replaced(s, from, to)[i] == s[i],
{
}

/// The front of a text is of the length asked for, or all of it.
pub proof fn lemma_prefix(a: Seq<char>, b: Seq<char>, count: nat)
    ensures
        prefix_of(a + b, a.len()) == a,
        a.len() <= count ==> prefix_of(a, count) == a,
{
    assert((a + b).take(a.len() as int) =~= a);
    if a.len() == count {
        assert(a.take(count as int) =~= a);
    }
}

/// Texts are ordered by their first difference; a text stands before what it begins.
pub proof fn lemma_text_order(common: Seq<char>, a: Seq<char>, b: Seq<char>)
    ensures
        text_le(common, common + a),
        a.len() > 0 ==> !text_le(common + a, common),
        a.len() > 0 && b.len() > 0 && a[0] < b[0] ==> text_le(common + a, common + b) && !text_le(
            common + b,
            common + a,
        ),
    decreases common.len(),
{
    if common.len() == 0 {
        assert(common + a =~= a);
        assert(common + b =~= b);
    } else {
        let rest = common.drop_first();
        lemma_text_order(rest, a, b);
        assert((common + a).drop_first() =~= rest + a);
        assert((common + b).drop_first() =~= rest + b);
    }
}

} // verus!
