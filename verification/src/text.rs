//! Strings as sequences of characters: comparison, trimming, splitting and joining.

use vstd::prelude::*;
use vstd::string::*;

verus! {

/// `String::push` appends one character to the end of the string.
pub assume_specification[ String::push ](s: &mut String, ch: char)
    ensures
        final(s)@ == old(s)@.push(ch),
;

/// The characters of `s`, in order.
pub fn chars_of(s: &str) -> (r: Vec<char>)
    ensures
        r@ == s@,
{
    let mut r: Vec<char> = Vec::new();
    for c in it: s.chars()
        invariant
            r@ == it.seq().take(it.index() as int),
            it.seq() == s@,
    {
        r.push(c);
    }
    r
}

/// The string made of `chars[from..to]`.
pub fn string_of(chars: &Vec<char>, from: usize, to: usize) -> (r: String)
    requires
        from <= to <= chars@.len(),
    ensures
        r@ == chars@.subrange(from as int, to as int),
{
    let mut r = String::new();
    let mut i: usize = from;
    while i < to
        invariant
            from <= i <= to <= chars@.len(),
            r@ == chars@.subrange(from as int, i as int),
        decreases to - i,
    {
        r.push(chars[i]);
        i = i + 1;
    }
    r
}

/// Whether two strings hold the same characters.
pub fn str_eq(a: &str, b: &str) -> (r: bool)
    ensures
        r == (a@ == b@),
{
    let x = a.as_bytes();
    let y = b.as_bytes();
    proof {
        vstd::utf8::encode_utf8_decode_utf8(a@);
        vstd::utf8::encode_utf8_decode_utf8(b@);
    }
    if x.len() != y.len() {
        return false;
    }
    let mut i: usize = 0;
    while i < x.len()
        invariant
            i <= x@.len(),
            x@.len() == y@.len(),
            x@ == a.spec_bytes(),
            y@ == b.spec_bytes(),
            forall|j: int| 0 <= j < i ==> x@[j] == y@[j],
        decreases x@.len() - i,
    {
        if x[i] != y[i] {
            return false;
        }
        i = i + 1;
    }
    assert(x@ =~= y@);
    true
}

/// The characters with the Unicode property `White_Space`.
pub open spec fn is_whitespace(c: char) -> bool {
    ||| '\u{9}' <= c <= '\u{d}'
    ||| c == ' '
    ||| c == '\u{85}'
    ||| c == '\u{a0}'
    ||| c == '\u{1680}'
    ||| '\u{2000}' <= c <= '\u{200a}'
    ||| c == '\u{2028}'
    ||| c == '\u{2029}'
    ||| c == '\u{202f}'
    ||| c == '\u{205f}'
    ||| c == '\u{3000}'
}

fn whitespace(c: char) -> (r: bool)
    ensures
        r == is_whitespace(c),
{
    ('\u{9}' <= c && c <= '\u{d}') || c == ' ' || c == '\u{85}' || c == '\u{a0}' || c == '\u{1680}'
        || ('\u{2000}' <= c && c <= '\u{200a}') || c == '\u{2028}' || c == '\u{2029}' || c
        == '\u{202f}' || c == '\u{205f}' || c == '\u{3000}'
}

/// `s` without its leading whitespace.
pub open spec fn trim_start_of(s: Seq<char>) -> Seq<char>
    decreases s.len(),
{
    if s.len() > 0 && is_whitespace(s[0]) {
        trim_start_of(s.drop_first())
    } else {
        s
    }
}

/// `s` without its trailing whitespace.
pub open spec fn trim_end_of(s: Seq<char>) -> Seq<char>
    decreases s.len(),
{
    if s.len() > 0 && is_whitespace(s.last()) {
        trim_end_of(s.drop_last())
    } else {
        s
    }
}

/// `s` without whitespace at either end.
pub open spec fn trimmed(s: Seq<char>) -> Seq<char> {
    trim_end_of(trim_start_of(s))
}

/// `s` holds nothing but whitespace.
pub open spec fn is_blank(s: Seq<char>) -> bool {
    forall|i: int| 0 <= i < s.len() ==> is_whitespace(#[trigger] s[i])
}

proof fn lemma_trim_start_blank(s: Seq<char>)
    ensures
        is_blank(s) ==> trim_start_of(s).len() == 0,
        !is_blank(s) ==> trim_start_of(s).len() > 0 && !is_whitespace(trim_start_of(s)[0]),
    decreases s.len(),
{
    if s.len() > 0 && is_whitespace(s[0]) {
        let rest = s.drop_first();
        lemma_trim_start_blank(rest);
        if is_blank(rest) {
            assert forall|i: int| 0 <= i < s.len() implies is_whitespace(#[trigger] s[i]) by {
                if i > 0 {
                    assert(rest[i - 1] == s[i]);
                }
            }
        } else {
            let i = choose|i: int| 0 <= i < rest.len() && !is_whitespace(#[trigger] rest[i]);
            assert(s[i + 1] == rest[i]);
        }
    } else if s.len() > 0 {
        assert(!is_whitespace(s[0]));
    }
}

proof fn lemma_trim_end_keeps_ink(s: Seq<char>, i: int)
    requires
        0 <= i < s.len(),
        !is_whitespace(s[i]),
    ensures
        s.len() >= trim_end_of(s).len() > i,
        trim_end_of(s) == s.take(trim_end_of(s).len() as int),
        !is_whitespace(trim_end_of(s).last()),
    decreases s.len(),
{
    if is_whitespace(s.last()) {
        assert(s.drop_last()[i] == s[i]);
        lemma_trim_end_keeps_ink(s.drop_last(), i);
        let n = trim_end_of(s).len() as int;
        assert(s.drop_last().take(n) =~= s.take(n));
    } else {
        assert(s.take(s.len() as int) =~= s);
    }
}

/// Trimming leaves nothing exactly when there is nothing but whitespace.
pub proof fn lemma_trimmed_empty_iff_blank(s: Seq<char>)
    ensures
        trimmed(s).len() == 0 <==> is_blank(s),
{
    lemma_trim_start_blank(s);
    if !is_blank(s) {
        lemma_trim_end_keeps_ink(trim_start_of(s), 0);
    }
}

proof fn lemma_trim_start_fixed(s: Seq<char>)
    requires
        s.len() > 0 ==> !is_whitespace(s[0]),
    ensures
        trim_start_of(s) == s,
{
}

/// Trimming twice is trimming once.
pub proof fn lemma_trimmed_idempotent(s: Seq<char>)
    ensures
        trimmed(trimmed(s)) == trimmed(s),
{
    lemma_trim_start_blank(s);
    if is_blank(s) {
        assert(trimmed(s).len() == 0);
    } else {
        let a = trim_start_of(s);
        lemma_trim_end_keeps_ink(a, 0);
        let b = trim_end_of(a);
        assert(a.take(b.len() as int)[0] == a[0]);
        lemma_trim_start_fixed(b);
    }
}

/// `s` without whitespace at either end.
pub fn trim(s: &str) -> (r: String)
    ensures
        r@ == trimmed(s@),
{
    let chars = chars_of(s);
    let mut from: usize = 0;
    let mut to: usize = chars.len();
    assert(chars@.subrange(0, to as int) =~= chars@);
    while from < to && whitespace(chars[from])
        invariant
            from <= to == chars@.len(),
            trim_start_of(s@) == trim_start_of(chars@.subrange(from as int, to as int)),
        decreases to - from,
    {
        assert(chars@.subrange(from as int, to as int).drop_first() =~= chars@.subrange(
            from + 1,
            to as int,
        ));
        from = from + 1;
    }
    assert(trim_start_of(s@) == chars@.subrange(from as int, to as int));
    while from < to && whitespace(chars[to - 1])
        invariant
            from <= to <= chars@.len(),
            trimmed(s@) == trim_end_of(chars@.subrange(from as int, to as int)),
        decreases to - from,
    {
        assert(chars@.subrange(from as int, to as int).drop_last() =~= chars@.subrange(
            from as int,
            to - 1,
        ));
        to = to - 1;
    }
    string_of(&chars, from, to)
}

/// Upper case of an ASCII letter; every other character unchanged.
pub open spec fn ascii_upper(c: char) -> char {
    if 'a' <= c <= 'z' {
        (c as int - 32) as char
    } else {
        c
    }
}

/// Lower case of an ASCII letter; every other character unchanged.
pub open spec fn ascii_lower(c: char) -> char {
    if 'A' <= c <= 'Z' {
        (c as int + 32) as char
    } else {
        c
    }
}

fn upper_char(c: char) -> (r: char)
    ensures
        r == ascii_upper(c),
{
    if 'a' <= c && c <= 'z' {
        ((c as u8) - 32) as char
    } else {
        c
    }
}

fn lower_char(c: char) -> (r: char)
    ensures
        r == ascii_lower(c),
{
    if 'A' <= c && c <= 'Z' {
        ((c as u8) + 32) as char
    } else {
        c
    }
}

/// `s` with its ASCII letters in upper case.
pub open spec fn uppercased(s: Seq<char>) -> Seq<char> {
    s.map_values(|c: char| ascii_upper(c))
}

/// `s` with its ASCII letters in lower case.
pub open spec fn lowercased(s: Seq<char>) -> Seq<char> {
    s.map_values(|c: char| ascii_lower(c))
}

/// `s` with its ASCII letters in upper case.
pub fn to_upper(s: &str) -> (r: String)
    ensures
        r@ == uppercased(s@),
{
    let chars = chars_of(s);
    let mut r = String::new();
    let mut i: usize = 0;
    while i < chars.len()
        invariant
            i <= chars@.len(),
            chars@ == s@,
            r@ == uppercased(s@.take(i as int)),
        decreases chars@.len() - i,
    {
        r.push(upper_char(chars[i]));
        assert(uppercased(s@.take(i + 1)) =~= uppercased(s@.take(i as int)).push(
            ascii_upper(s@[i as int]),
        ));
        i = i + 1;
    }
    assert(s@.take(i as int) =~= s@);
    r
}

/// What follows the first `from` characters of `s`, with its ASCII letters in lower case.
pub fn to_lower_from(s: &str, from: usize) -> (r: String)
    requires
        from <= s@.len(),
    ensures
        r@ == lowercased(s@.skip(from as int)),
{
    let chars = chars_of(s);
    let mut r = String::new();
    let mut i: usize = from;
    while i < chars.len()
        invariant
            from <= i <= chars@.len(),
            chars@ == s@,
            r@ == lowercased(s@.subrange(from as int, i as int)),
        decreases chars@.len() - i,
    {
        r.push(lower_char(chars[i]));
        assert(r@ =~= lowercased(s@.subrange(from as int, i + 1)));
        i = i + 1;
    }
    assert(s@.subrange(from as int, i as int) =~= s@.skip(from as int));
    r
}

/// `a` followed by `b`.
pub fn cat2(a: &str, b: &str) -> (r: String)
    ensures
        r@ == a@ + b@,
{
    let mut r = a.to_owned();
    r.append(b);
    r
}

/// `a` followed by `b` and `c`.
pub fn cat3(a: &str, b: &str, c: &str) -> (r: String)
    ensures
        r@ == a@ + b@ + c@,
{
    let mut r = cat2(a, b);
    r.append(c);
    r
}

/// `a` followed by `b`, `c` and `d`.
pub fn cat4(a: &str, b: &str, c: &str, d: &str) -> (r: String)
    ensures
        r@ == a@ + b@ + c@ + d@,
{
    let mut r = cat3(a, b, c);
    r.append(d);
    r
}

/// `a` followed by `b`, `c`, `d` and `e`.
pub fn cat5(a: &str, b: &str, c: &str, d: &str, e: &str) -> (r: String)
    ensures
        r@ == a@ + b@ + c@ + d@ + e@,
{
    let mut r = cat4(a, b, c, d);
    r.append(e);
    r
}

/// A digit below ten.
pub open spec fn digit(n: int) -> char {
    (n + 48) as char
}

/// A number in decimal digits.
pub open spec fn decimal_of(n: nat) -> Seq<char>
    decreases n,
{
    if n < 10 {
        seq![digit(n as int)]
    } else {
        decimal_of(n / 10).push(digit((n % 10) as int))
    }
}

/// An integer in decimal digits, with a sign where it is below zero.
pub open spec fn integer_text(n: int) -> Seq<char> {
    if n < 0 {
        "-"@ + decimal_of((-n) as nat)
    } else {
        decimal_of(n as nat)
    }
}

fn digit_char(n: u64) -> (r: char)
    requires
        n < 10,
    ensures
        r == digit(n as int),
{
    if n == 0 {
        '0'
    } else if n == 1 {
        '1'
    } else if n == 2 {
        '2'
    } else if n == 3 {
        '3'
    } else if n == 4 {
        '4'
    } else if n == 5 {
        '5'
    } else if n == 6 {
        '6'
    } else if n == 7 {
        '7'
    } else if n == 8 {
        '8'
    } else {
        '9'
    }
}

fn decimal(n: u64) -> (r: String)
    ensures
        r@ == decimal_of(n as nat),
    decreases n,
{
    if n < 10 {
        let mut r = String::new();
        r.push(digit_char(n));
        assert(r@ =~= seq![digit(n as int)]);
        r
    } else {
        let mut r = decimal(n / 10);
        r.push(digit_char(n % 10));
        r
    }
}

/// An integer in decimal digits, with a sign where it is below zero.
pub fn int_to_string(n: i32) -> (r: String)
    ensures
        r@ == integer_text(n as int),
{
    if n < 0 {
        let m: u64 = (-(n as i64)) as u64;
        cat2("-", decimal(m).as_str())
    } else {
        decimal(n as u64)
    }
}

/// Whether two strings are equal up to the case of their ASCII letters.
pub fn eq_ignore_ascii_case(a: &str, b: &str) -> (r: bool)
    ensures
        r == (lowercased(a@) == lowercased(b@)),
{
    let x = chars_of(a);
    let y = chars_of(b);
    if x.len() != y.len() {
        assert(lowercased(a@).len() != lowercased(b@).len());
        return false;
    }
    let mut i: usize = 0;
    while i < x.len()
        invariant
            i <= x@.len(),
            x@.len() == y@.len(),
            x@ == a@,
            y@ == b@,
            forall|j: int| 0 <= j < i ==> ascii_lower(x@[j]) == ascii_lower(y@[j]),
        decreases x@.len() - i,
    {
        if lower_char(x[i]) != lower_char(y[i]) {
            assert(lowercased(a@)[i as int] != lowercased(b@)[i as int]);
            return false;
        }
        i = i + 1;
    }
    assert(lowercased(a@) =~= lowercased(b@));
    true
}

/// The pieces of `s` between occurrences of `separator`.
pub open spec fn split_of(s: Seq<char>, separator: char) -> Seq<Seq<char>>
    decreases s.len(),
{
    if s.len() == 0 {
        seq![Seq::<char>::empty()]
    } else {
        let pieces = split_of(s.drop_last(), separator);
        if s.last() == separator {
            pieces.push(Seq::<char>::empty())
        } else {
            pieces.drop_last().push(pieces.last().push(s.last()))
        }
    }
}

/// The pieces of `s` between occurrences of `separator`.
pub fn split(s: &str, separator: char) -> (r: Vec<String>)
    ensures
        r.deep_view() == split_of(s@, separator),
{
    let chars = chars_of(s);
    let mut pieces: Vec<String> = Vec::new();
    let mut piece = String::new();
    let mut i: usize = 0;
    assert(s@.take(0) =~= Seq::<char>::empty());
    assert(pieces.deep_view().push(piece@) =~= split_of(s@.take(0), separator));
    while i < chars.len()
        invariant
            i <= chars@.len(),
            chars@ == s@,
            pieces.deep_view().push(piece@) == split_of(s@.take(i as int), separator),
        decreases chars@.len() - i,
    {
        let c = chars[i];
        let ghost before = pieces.deep_view();
        let ghost old_piece = piece@;
        assert(s@.take(i + 1).drop_last() =~= s@.take(i as int));
        if c == separator {
            pieces.push(piece);
            piece = String::new();
            assert(pieces.deep_view() =~= before.push(old_piece));
            assert(pieces.deep_view().push(piece@) =~= split_of(s@.take(i + 1), separator));
        } else {
            piece.push(c);
            assert(before.push(old_piece).drop_last() =~= before);
            assert(before.push(piece@) =~= split_of(s@.take(i + 1), separator));
        }
        i = i + 1;
    }
    assert(s@.take(i as int) =~= s@);
    let ghost before = pieces.deep_view();
    let ghost last = piece@;
    pieces.push(piece);
    assert(pieces.deep_view() =~= before.push(last));
    pieces
}

/// There is a piece at least, and no piece holds the separator.
pub proof fn lemma_split_holds_no_separator(s: Seq<char>, separator: char)
    ensures
        split_of(s, separator).len() > 0,
        forall|i: int|
            0 <= i < split_of(s, separator).len() ==> !(#[trigger] split_of(s, separator)[i]).contains(
                separator,
            ),
    decreases s.len(),
{
    if s.len() > 0 {
        lemma_split_holds_no_separator(s.drop_last(), separator);
        let before = split_of(s.drop_last(), separator);
        let pieces = split_of(s, separator);
        assert forall|i: int| 0 <= i < pieces.len() implies !(#[trigger] pieces[i]).contains(
            separator,
        ) by {
            if s.last() != separator && i == pieces.len() - 1 {
                let last = before.last();
                assert(!before[before.len() - 1].contains(separator));
                if pieces[i].contains(separator) {
                    let k = choose|k: int| 0 <= k < pieces[i].len() && pieces[i][k] == separator;
                    assert(last[k] == separator);
                }
            } else if i < before.len() {
                assert(pieces[i] == before[i]);
            }
        }
    }
}

/// A text without the separator is its only piece.
pub proof fn lemma_split_whole(s: Seq<char>, separator: char)
    requires
        !s.contains(separator),
    ensures
        split_of(s, separator) == seq![s],
    decreases s.len(),
{
    if s.len() > 0 {
        let t = s.drop_last();
        assert(s[s.len() - 1] != separator);
        assert forall|i: int| 0 <= i < t.len() implies t[i] != separator by {
            assert(s[i] != separator);
        }
        lemma_split_whole(t, separator);
        assert(t.push(s.last()) =~= s);
        assert(split_of(s, separator) =~= seq![s]);
    } else {
        assert(s =~= Seq::empty());
        assert(split_of(s, separator) =~= seq![s]);
    }
}

/// The pieces on both sides of a separator are the pieces of the two sides.
pub proof fn lemma_split_at(a: Seq<char>, separator: char, b: Seq<char>)
    ensures
        split_of(a.push(separator) + b, separator) == split_of(a, separator) + split_of(
            b,
            separator,
        ),
    decreases b.len(),
{
    let s = a.push(separator) + b;
    if b.len() == 0 {
        assert(s =~= a.push(separator));
        assert(s.drop_last() =~= a);
        assert(split_of(s, separator) =~= split_of(a, separator) + split_of(b, separator));
    } else {
        lemma_split_at(a, separator, b.drop_last());
        lemma_split_holds_no_separator(b.drop_last(), separator);
        assert(s.drop_last() =~= a.push(separator) + b.drop_last());
        assert(split_of(s, separator) =~= split_of(a, separator) + split_of(b, separator));
    }
}

/// Strings that are equal up to case have pieces that are equal up to case, where the separator is
/// no letter.
pub proof fn lemma_split_ignores_case(a: Seq<char>, b: Seq<char>, separator: char)
    requires
        lowercased(a) == lowercased(b),
        !('a' <= separator <= 'z'),
        !('A' <= separator <= 'Z'),
    ensures
        split_of(a, separator).len() == split_of(b, separator).len(),
        forall|i: int|
            0 <= i < split_of(a, separator).len() ==> lowercased(
                #[trigger] split_of(a, separator)[i],
            ) == lowercased(split_of(b, separator)[i]),
    decreases a.len(),
{
    assert(lowercased(a).len() == a.len() && lowercased(b).len() == b.len());
    if a.len() > 0 {
        let n = a.len() - 1;
        assert(lowercased(a)[n] == ascii_lower(a[n]) && lowercased(b)[n] == ascii_lower(b[n]));
        lemma_ascii_case(a[n], b[n]);
        assert(lowercased(a.drop_last()) =~= lowercased(a).drop_last());
        assert(lowercased(b.drop_last()) =~= lowercased(b).drop_last());
        lemma_split_ignores_case(a.drop_last(), b.drop_last(), separator);
        lemma_split_holds_no_separator(a.drop_last(), separator);
        let p = split_of(a.drop_last(), separator);
        let q = split_of(b.drop_last(), separator);
        assert(lowercased(p[p.len() - 1]) == lowercased(q[p.len() - 1]));
        assert((a.last() == separator) == (b.last() == separator));
        assert forall|i: int| 0 <= i < split_of(a, separator).len() implies lowercased(
            #[trigger] split_of(a, separator)[i],
        ) == lowercased(split_of(b, separator)[i]) by {
            if i < p.len() - 1 || (i < p.len() && a.last() == separator) {
                assert(split_of(a, separator)[i] == p[i]);
                assert(split_of(b, separator)[i] == q[i]);
            } else if a.last() != separator {
                assert(split_of(a, separator)[i] == p.last().push(a.last()));
                assert(split_of(b, separator)[i] == q.last().push(b.last()));
                assert(lowercased(p.last().push(a.last())) =~= lowercased(p.last()).push(
                    ascii_lower(a.last()),
                ));
                assert(lowercased(q.last().push(b.last())) =~= lowercased(q.last()).push(
                    ascii_lower(b.last()),
                ));
            }
        }
    }
}

/// Characters that are equal up to case are the same where one of them is no letter, and the same in
/// upper case.
pub proof fn lemma_ascii_case(c: char, d: char)
    requires
        ascii_lower(c) == ascii_lower(d),
    ensures
        ascii_upper(c) == ascii_upper(d),
        !('a' <= c <= 'z') && !('A' <= c <= 'Z') ==> c == d,
        !('a' <= d <= 'z') && !('A' <= d <= 'Z') ==> c == d,
{
}

/// Writing letters in upper or lower case does not change what they are in lower case.
pub proof fn lemma_case_change(s: Seq<char>)
    ensures
        lowercased(uppercased(s)) == lowercased(s),
        lowercased(lowercased(s)) == lowercased(s),
{
    assert(lowercased(uppercased(s)) =~= lowercased(s));
    assert(lowercased(lowercased(s)) =~= lowercased(s));
}

/// The parts of `parts` in order, with `separator` between each two of them.
pub open spec fn joined(parts: Seq<Seq<char>>, separator: Seq<char>) -> Seq<char>
    decreases parts.len(),
{
    if parts.len() == 0 {
        Seq::<char>::empty()
    } else if parts.len() == 1 {
        parts[0]
    } else {
        joined(parts.drop_last(), separator) + separator + parts.last()
    }
}

/// What neither the parts nor what stands between them hold, the whole does not hold.
pub proof fn lemma_joined_holds_no_more(parts: Seq<Seq<char>>, separator: Seq<char>, c: char)
    requires
        !separator.contains(c),
        forall|i: int| 0 <= i < parts.len() ==> !(#[trigger] parts[i]).contains(c),
    ensures
        !joined(parts, separator).contains(c),
    decreases parts.len(),
{
    if parts.len() > 1 {
        let before = joined(parts.drop_last(), separator);
        let whole = joined(parts, separator);
        assert forall|i: int| 0 <= i < parts.drop_last().len() implies !(
        #[trigger] parts.drop_last()[i]).contains(c) by {
            assert(parts.drop_last()[i] == parts[i]);
        }
        lemma_joined_holds_no_more(parts.drop_last(), separator, c);
        let last = parts[parts.len() - 1];
        if whole.contains(c) {
            let k = choose|k: int| 0 <= k < whole.len() && whole[k] == c;
            if k < before.len() {
                assert(before[k] == c);
            } else if k < before.len() + separator.len() {
                assert(separator[k - before.len()] == c);
            } else {
                assert(last[k - before.len() - separator.len()] == c);
            }
        }
    } else if parts.len() == 1 {
        assert(!parts[0].contains(c));
    }
}

/// The strings of `parts` in order, with `separator` between each two of them.
pub fn join(parts: &Vec<String>, separator: &str) -> (r: String)
    ensures
        r@ == joined(parts.deep_view(), separator@),
{
    let mut r = String::new();
    let mut i: usize = 0;
    let ghost all = parts.deep_view();
    while i < parts.len()
        invariant
            i <= parts@.len(),
            all == parts.deep_view(),
            r@ == joined(all.take(i as int), separator@),
        decreases parts@.len() - i,
    {
        assert(all.take(i + 1).drop_last() =~= all.take(i as int));
        assert(all.take(i + 1).last() == parts@[i as int]@);
        if i > 0 {
            r.append(separator);
            r.append(parts[i].as_str());
        } else {
            r.append(parts[i].as_str());
            assert(all.take(1).len() == 1);
            assert(r@ =~= parts@[0]@);
        }
        i = i + 1;
    }
    assert(all.take(i as int) =~= all);
    r
}

/// `needle` occurs in `hay`.
pub open spec fn contains_text(hay: Seq<char>, needle: Seq<char>) -> bool {
    exists|i: int|
        0 <= i <= hay.len() - needle.len() && #[trigger] hay.subrange(i, i + needle.len()) == needle
}

/// Whether `needle` occurs in `hay`.
pub fn contains(hay: &str, needle: &str) -> (r: bool)
    ensures
        r == contains_text(hay@, needle@),
{
    let h = chars_of(hay);
    let n = chars_of(needle);
    if n.len() > h.len() {
        return false;
    }
    let last: usize = h.len() - n.len();
    let mut i: usize = 0;
    while i <= last
        invariant
            i <= last + 1,
            last == h@.len() - n@.len(),
            h@ == hay@,
            n@ == needle@,
            forall|k: int| 0 <= k < i ==> #[trigger] hay@.subrange(k, k + needle@.len()) != needle@,
        decreases last + 1 - i,
    {
        let mut j: usize = 0;
        while j < n.len() && h[i + j] == n[j]
            invariant
                i <= last,
                j <= n.len(),
                last == h.len() - n.len(),
                forall|k: int| 0 <= k < j ==> h@[i + k] == n@[k],
            decreases n@.len() - j,
        {
            j = j + 1;
        }
        if j == n.len() {
            assert(hay@.subrange(i as int, i + needle@.len()) =~= needle@);
            return true;
        }
        assert(hay@.subrange(i as int, i + needle@.len())[j as int] != needle@[j as int]);
        if i == last {
            return false;
        }
        i = i + 1;
    }
    false
}

/// `s` cut at its first `separator`: what stands before it and what stands after it.
pub open spec fn split_once_of(s: Seq<char>, separator: char) -> Option<(Seq<char>, Seq<char>)>
    decreases s.len(),
{
    if s.len() == 0 {
        None
    } else if s[0] == separator {
        Some((Seq::<char>::empty(), s.drop_first()))
    } else {
        match split_once_of(s.drop_first(), separator) {
            Some((before, after)) => Some((seq![s[0]] + before, after)),
            None => None,
        }
    }
}

proof fn lemma_split_once_at(s: Seq<char>, separator: char, at: int)
    requires
        0 <= at < s.len(),
        s[at] == separator,
        forall|j: int| 0 <= j < at ==> s[j] != separator,
    ensures
        split_once_of(s, separator) == Some((s.take(at), s.skip(at + 1))),
    decreases s.len(),
{
    if at == 0 {
        assert(s.take(0) =~= Seq::<char>::empty());
        assert(s.skip(1) =~= s.drop_first());
    } else {
        lemma_split_once_at(s.drop_first(), separator, at - 1);
        assert(seq![s[0]] + s.drop_first().take(at - 1) =~= s.take(at));
        assert(s.drop_first().skip(at) =~= s.skip(at + 1));
    }
}

proof fn lemma_split_once_absent(s: Seq<char>, separator: char)
    requires
        forall|j: int| 0 <= j < s.len() ==> s[j] != separator,
    ensures
        split_once_of(s, separator) is None,
    decreases s.len(),
{
    if s.len() > 0 {
        lemma_split_once_absent(s.drop_first(), separator);
    }
}

/// `s` cut at its first `separator`, which is dropped.
pub fn split_once(s: &str, separator: char) -> (r: Option<(String, String)>)
    ensures
        match r {
            Some((before, after)) => split_once_of(s@, separator) == Some((before@, after@)),
            None => split_once_of(s@, separator) is None,
        },
{
    let chars = chars_of(s);
    let mut i: usize = 0;
    while i < chars.len()
        invariant
            i <= chars@.len(),
            chars@ == s@,
            forall|j: int| 0 <= j < i ==> s@[j] != separator,
        decreases chars@.len() - i,
    {
        if chars[i] == separator {
            proof {
                lemma_split_once_at(s@, separator, i as int);
            }
            let before = string_of(&chars, 0, i);
            let after = string_of(&chars, i + 1, chars.len());
            return Some((before, after));
        }
        i = i + 1;
    }
    proof {
        lemma_split_once_absent(s@, separator);
    }
    None
}

/// `s` with every `from` turned into `to`.
pub open spec fn replaced(s: Seq<char>, from: char, to: char) -> Seq<char> {
    s.map_values(
        |c: char|
            if c == from {
                to
            } else {
                c
            },
    )
}

/// `s` with every `from` turned into `to`.
pub fn replace(s: &str, from: char, to: char) -> (r: String)
    ensures
        r@ == replaced(s@, from, to),
{
    let chars = chars_of(s);
    let mut r = String::new();
    let mut i: usize = 0;
    while i < chars.len()
        invariant
            i <= chars@.len(),
            chars@ == s@,
            r@ == replaced(s@.take(i as int), from, to),
        decreases chars@.len() - i,
    {
        let c = chars[i];
        r.push(
            if c == from {
                to
            } else {
                c
            },
        );
        assert(r@ =~= replaced(s@.take(i + 1), from, to));
        i = i + 1;
    }
    assert(s@.take(i as int) =~= s@);
    r
}

/// The first `count` characters of `s`, or all of them where it has fewer.
pub open spec fn prefix_of(s: Seq<char>, count: nat) -> Seq<char> {
    if s.len() < count {
        s
    } else {
        s.take(count as int)
    }
}

/// The first `count` characters of `s`, or all of them where it has fewer.
pub fn prefix(s: &str, count: usize) -> (r: String)
    ensures
        r@ == prefix_of(s@, count as nat),
{
    let chars = chars_of(s);
    let to: usize = if chars.len() < count {
        chars.len()
    } else {
        count
    };
    let r = string_of(&chars, 0, to);
    assert(r@ =~= prefix_of(s@, count as nat));
    r
}

/// `a` stands no later than `b` in the order of their code points.
pub open spec fn text_le(a: Seq<char>, b: Seq<char>) -> bool
    decreases a.len(),
{
    if a.len() == 0 {
        true
    } else if b.len() == 0 {
        false
    } else if a[0] == b[0] {
        text_le(a.drop_first(), b.drop_first())
    } else {
        a[0] < b[0]
    }
}

/// Of any two texts one stands no later than the other.
pub proof fn lemma_text_le_total(a: Seq<char>, b: Seq<char>)
    ensures
        text_le(a, b) || text_le(b, a),
    decreases a.len(),
{
    if a.len() > 0 && b.len() > 0 && a[0] == b[0] {
        lemma_text_le_total(a.drop_first(), b.drop_first());
    }
}

/// Two texts that stand no later than each other are the same.
pub proof fn lemma_text_le_antisymmetric(a: Seq<char>, b: Seq<char>)
    requires
        text_le(a, b),
        text_le(b, a),
    ensures
        a == b,
    decreases a.len(),
{
    if a.len() > 0 && b.len() > 0 {
        lemma_text_le_antisymmetric(a.drop_first(), b.drop_first());
        assert(a =~= seq![a[0]] + a.drop_first());
        assert(b =~= seq![b[0]] + b.drop_first());
    } else {
        assert(a =~= b);
    }
}

/// The order of texts is transitive.
pub proof fn lemma_text_le_transitive(a: Seq<char>, b: Seq<char>, c: Seq<char>)
    requires
        text_le(a, b),
        text_le(b, c),
    ensures
        text_le(a, c),
    decreases a.len(),
{
    if a.len() > 0 && b.len() > 0 && c.len() > 0 && a[0] == b[0] && b[0] == c[0] {
        lemma_text_le_transitive(a.drop_first(), b.drop_first(), c.drop_first());
    }
}

/// Whether `a` stands no later than `b` in the order of their code points.
pub fn str_le(a: &str, b: &str) -> (r: bool)
    ensures
        r == text_le(a@, b@),
{
    let x = chars_of(a);
    let y = chars_of(b);
    let mut i: usize = 0;
    assert(a@.skip(0) =~= a@);
    assert(b@.skip(0) =~= b@);
    while i < x.len() && i < y.len() && x[i] == y[i]
        invariant
            i <= x@.len(),
            i <= y@.len(),
            x@ == a@,
            y@ == b@,
            text_le(a@, b@) == text_le(a@.skip(i as int), b@.skip(i as int)),
        decreases x@.len() - i,
    {
        assert(a@.skip(i as int).drop_first() =~= a@.skip(i + 1));
        assert(b@.skip(i as int).drop_first() =~= b@.skip(i + 1));
        i = i + 1;
    }
    if i == x.len() {
        true
    } else if i == y.len() {
        false
    } else {
        x[i] < y[i]
    }
}

/// Whether two optional strings are both absent or hold the same characters.
pub fn opt_eq(a: &Option<String>, b: &Option<String>) -> (r: bool)
    ensures
        r == (a.deep_view() == b.deep_view()),
{
    match (a, b) {
        (Some(x), Some(y)) => str_eq(x.as_str(), y.as_str()),
        (None, None) => true,
        _ => false,
    }
}

/// Whether `a` holds exactly the characters of `b`.
pub fn opt_is(a: &Option<String>, b: &str) -> (r: bool)
    ensures
        r == (a.deep_view() == Some(b@)),
{
    match a {
        Some(x) => str_eq(x.as_str(), b),
        None => false,
    }
}

/// A copy of an optional string.
pub fn opt_clone(a: &Option<String>) -> (r: Option<String>)
    ensures
        r == *a,
{
    match a {
        Some(x) => Some(x.clone()),
        None => None,
    }
}

/// A copy of a list of strings.
pub fn strings_clone(a: &Vec<String>) -> (r: Vec<String>)
    ensures
        r@ == a@,
        r.deep_view() == a.deep_view(),
{
    let r = a.clone();
    assert(r@ =~= a@);
    r
}

} // verus!
