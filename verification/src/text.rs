//! Text helpers: comparison, trimming, joining and decimal notation.

use vstd::prelude::*;
use vstd::string::*;

verus! {

/// The characters of the Unicode property `White_Space`.
pub open spec fn is_white_space(c: char) -> bool {
    let n = c as u32;
    ||| 0x09 <= n <= 0x0d
    ||| n == 0x20
    ||| n == 0x85
    ||| n == 0xa0
    ||| n == 0x1680
    ||| 0x2000 <= n <= 0x200a
    ||| n == 0x2028
    ||| n == 0x2029
    ||| n == 0x202f
    ||| n == 0x205f
    ||| n == 0x3000
}

/// `text` without its leading white space.
pub open spec fn without_leading_space(text: Seq<char>) -> Seq<char>
    decreases text.len(),
{
    if text.len() > 0 && is_white_space(text.first()) {
        without_leading_space(text.drop_first())
    } else {
        text
    }
}

/// `text` without its trailing white space.
pub open spec fn without_trailing_space(text: Seq<char>) -> Seq<char>
    decreases text.len(),
{
    if text.len() > 0 && is_white_space(text.last()) {
        without_trailing_space(text.drop_last())
    } else {
        text
    }
}

/// `text` without the white space at its two ends.
pub open spec fn trimmed(text: Seq<char>) -> Seq<char> {
    without_trailing_space(without_leading_space(text))
}

fn reads_white_space(c: char) -> (r: bool)
    ensures
        r == is_white_space(c),
{
    let n: u32 = c as u32;
    (0x09 <= n && n <= 0x0d) || n == 0x20 || n == 0x85 || n == 0xa0 || n == 0x1680 || (0x2000 <= n
        && n <= 0x200a) || n == 0x2028 || n == 0x2029 || n == 0x202f || n == 0x205f || n == 0x3000
}

proof fn lemma_without_leading_space(text: Seq<char>, start: int)
    requires
        0 <= start <= text.len(),
        forall|j: int| 0 <= j < start ==> is_white_space(#[trigger] text[j]),
        start < text.len() ==> !is_white_space(text[start]),
    ensures
        without_leading_space(text) == text.skip(start),
    decreases text.len(),
{
    if start > 0 {
        assert(is_white_space(text[0]));
        assert forall|j: int| 0 <= j < start - 1 implies is_white_space(
            #[trigger] text.drop_first()[j],
        ) by {
            assert(is_white_space(text[j + 1]));
        }
        lemma_without_leading_space(text.drop_first(), start - 1);
        assert(text.drop_first().skip(start - 1) =~= text.skip(start));
    } else {
        assert(text.skip(0) =~= text);
    }
}

proof fn lemma_without_trailing_space(text: Seq<char>, end: int)
    requires
        0 <= end <= text.len(),
        forall|j: int| end <= j < text.len() ==> is_white_space(#[trigger] text[j]),
        end > 0 ==> !is_white_space(text[end - 1]),
    ensures
        without_trailing_space(text) == text.take(end),
    decreases text.len(),
{
    if end < text.len() {
        assert(is_white_space(text[text.len() - 1]));
        assert forall|j: int| end <= j < text.drop_last().len() implies is_white_space(
            #[trigger] text.drop_last()[j],
        ) by {
            assert(is_white_space(text[j]));
        }
        lemma_without_trailing_space(text.drop_last(), end);
        assert(text.drop_last().take(end) =~= text.take(end));
    } else {
        assert(text.take(end) =~= text);
    }
}

/// The text without the white space at its two ends.
pub fn trim(text: &str) -> (r: &str)
    ensures
        r@ == trimmed(text@),
{
    let n: usize = text.unicode_len();
    let mut i: usize = 0;
    let mut start: usize = 0;
    let mut end: usize = 0;
    for c in chars: text.chars()
        invariant
            n == text@.len(),
            chars.seq() == text@,
            i == chars.index(),
            start <= i,
            end <= i,
            forall|j: int| 0 <= j < start ==> is_white_space(#[trigger] text@[j]),
            start < i ==> !is_white_space(text@[start as int]),
            forall|j: int| end <= j < i ==> is_white_space(#[trigger] text@[j]),
            end > 0 ==> !is_white_space(text@[end - 1]),
            start < i ==> start < end,
    {
        let white = reads_white_space(c);
        if white && start == i {
            start = start + 1;
        }
        if !white {
            end = i + 1;
        }
        i = i + 1;
    }
    proof {
        let text = text@;
        lemma_without_leading_space(text, start as int);
        if start < end {
            let rest = text.skip(start as int);
            assert forall|j: int| end - start <= j < rest.len() implies is_white_space(
                #[trigger] rest[j],
            ) by {
                assert(is_white_space(text[start + j]));
            }
            lemma_without_trailing_space(rest, end - start);
            assert(rest.take(end - start) =~= text.subrange(start as int, end as int));
        } else {
            assert(text.skip(start as int) =~= Seq::empty());
            assert(text.subrange(0, 0) =~= Seq::empty());
        }
    }
    if start < end {
        text.substring_char(start, end)
    } else {
        text.substring_char(0, 0)
    }
}

/// Whether two texts hold the same characters.
pub fn same_text(a: &str, b: &str) -> (r: bool)
    ensures
        r == (a@ == b@),
{
    a.to_string() == b.to_string()
}

/// Whether `text` begins with the characters of `prefix`.
pub fn begins_with(text: &str, prefix: &str) -> (r: bool)
    ensures
        r == prefix@.is_prefix_of(text@),
{
    let n: usize = prefix.unicode_len();
    if text.unicode_len() < n {
        return false;
    }
    same_text(text.substring_char(0, n), prefix)
}

/// `parts` one after the other, with `separator` between neighbours.
pub open spec fn joined(parts: Seq<Seq<char>>, separator: Seq<char>) -> Seq<char>
    decreases parts.len(),
{
    if parts.len() == 0 {
        Seq::empty()
    } else if parts.len() == 1 {
        parts[0]
    } else {
        joined(parts.drop_last(), separator) + separator + parts.last()
    }
}

/// The characters of each text.
pub open spec fn texts_view(texts: Seq<String>) -> Seq<Seq<char>> {
    texts.map_values(|t: String| t@)
}

/// The parts one after the other, with `separator` between neighbours.
pub fn join(parts: &Vec<String>, separator: &str) -> (r: String)
    ensures
        r@ == joined(texts_view(parts@), separator@),
{
    let mut r = String::new();
    let ghost views = texts_view(parts@);
    for i in 0..parts.len()
        invariant
            views == texts_view(parts@),
            r@ == joined(views.take(i as int), separator@),
    {
        proof {
            assert(views.take(i + 1).drop_last() =~= views.take(i as int));
        }
        if i > 0 {
            r.append(separator);
        }
        r.append(parts[i].as_str());
    }
    assert(views.take(parts@.len() as int) =~= views);
    r
}

/// `a`, then `b`, then `c`.
pub fn concat3(a: &str, b: &str, c: &str) -> (r: String)
    ensures
        r@ == a@ + b@ + c@,
{
    let mut r = a.to_string();
    r.append(b);
    r.append(c);
    r
}

/// The character of a decimal digit.
pub open spec fn digit(d: nat) -> char {
    (48 + d) as u8 as char
}

/// A natural number in decimal notation.
pub open spec fn decimal_nat(n: nat) -> Seq<char>
    decreases n,
{
    if n < 10 {
        seq![digit(n)]
    } else {
        decimal_nat(n / 10).push(digit(n % 10))
    }
}

/// An integer in decimal notation, with a minus sign where it is negative.
pub open spec fn decimal(n: int) -> Seq<char> {
    if n < 0 {
        seq!['-'] + decimal_nat((-n) as nat)
    } else {
        decimal_nat(n as nat)
    }
}

fn digit_text(d: u64) -> (r: &'static str)
    requires
        d < 10,
    ensures
        r@ == seq![digit(d as nat)],
{
    proof {
        reveal_strlit("0");
        reveal_strlit("1");
        reveal_strlit("2");
        reveal_strlit("3");
        reveal_strlit("4");
        reveal_strlit("5");
        reveal_strlit("6");
        reveal_strlit("7");
        reveal_strlit("8");
        reveal_strlit("9");
    }
    if d == 0 {
        "0"
    } else if d == 1 {
        "1"
    } else if d == 2 {
        "2"
    } else if d == 3 {
        "3"
    } else if d == 4 {
        "4"
    } else if d == 5 {
        "5"
    } else if d == 6 {
        "6"
    } else if d == 7 {
        "7"
    } else if d == 8 {
        "8"
    } else {
        "9"
    }
}

/// An unsigned number in decimal notation.
pub fn decimal_u64(n: u64) -> (r: String)
    ensures
        r@ == decimal(n as int),
    decreases n,
{
    if n < 10 {
        digit_text(n).to_string()
    } else {
        let mut r = decimal_u64(n / 10);
        r.append(digit_text(n % 10));
        assert(r@ =~= decimal(n as int));
        r
    }
}

/// A signed number in decimal notation.
pub fn decimal_i64(n: i64) -> (r: String)
    ensures
        r@ == decimal(n as int),
{
    if n >= 0 {
        decimal_u64(n as u64)
    } else {
        let magnitude: u64 = (-(n + 1)) as u64 + 1;
        proof {
            reveal_strlit("-");
        }
        let mut r = "-".to_string();
        r.append(decimal_u64(magnitude).as_str());
        assert(r@ =~= decimal(n as int));
        r
    }
}

proof fn lemma_decimal_nat_digits(n: nat)
    ensures
        decimal_nat(n).len() > 0,
        forall|i: int| 0 <= i < decimal_nat(n).len() ==> #[trigger] decimal_nat(n)[i] != '-',
    decreases n,
{
    if n >= 10 {
        lemma_decimal_nat_digits(n / 10);
    }
}

proof fn lemma_decimal_nat_injective(a: nat, b: nat)
    requires
        decimal_nat(a) == decimal_nat(b),
    ensures
        a == b,
    decreases a,
{
    lemma_decimal_nat_digits(a / 10);
    lemma_decimal_nat_digits(b / 10);
    assert(decimal_nat(a).last() == digit(a % 10));
    assert(decimal_nat(b).last() == digit(b % 10));
    assert(a % 10 == b % 10);
    if a >= 10 && b >= 10 {
        assert(decimal_nat(a).drop_last() =~= decimal_nat(a / 10));
        assert(decimal_nat(b).drop_last() =~= decimal_nat(b / 10));
        lemma_decimal_nat_injective(a / 10, b / 10);
    }
}

/// Two integers that look alike in decimal notation are the same.
pub proof fn decimal_is_injective(a: int, b: int)
    requires
        decimal(a) == decimal(b),
    ensures
        a == b,
{
    let ma = if a < 0 { (-a) as nat } else { a as nat };
    let mb = if b < 0 { (-b) as nat } else { b as nat };
    lemma_decimal_nat_digits(ma);
    lemma_decimal_nat_digits(mb);
    if a < 0 {
        assert(decimal(a)[0] == '-');
    } else {
        assert(decimal(a)[0] != '-');
    }
    if b < 0 {
        assert(decimal(b)[0] == '-');
    } else {
        assert(decimal(b)[0] != '-');
    }
    assert(decimal_nat(ma) =~= if a < 0 { decimal(a).skip(1) } else { decimal(a) });
    assert(decimal_nat(mb) =~= if b < 0 { decimal(b).skip(1) } else { decimal(b) });
    lemma_decimal_nat_injective(ma, mb);
}

// ---------------------------------------------------------------------------
// What holds of texts
// ---------------------------------------------------------------------------

/// White space is what Unicode says it is, character by character.
pub proof fn what_white_space_is(c: char)
    ensures
        is_white_space(c) <==> {
            ||| c == ' ' || c == '\t' || c == '\n' || c == '\r' || c == '\u{b}' || c == '\u{c}'
            ||| c == '\u{85}' || c == '\u{a0}' || c == '\u{1680}'
            ||| '\u{2000}' <= c <= '\u{200a}'
            ||| c == '\u{2028}' || c == '\u{2029}' || c == '\u{202f}'
            ||| c == '\u{205f}' || c == '\u{3000}'
        },
{
}

/// Trimming takes away the white space at both ends and nothing else.
pub proof fn trimming_keeps_what_is_between(before: Seq<char>, kept: Seq<char>, after: Seq<char>)
    requires
        forall|i: int| 0 <= i < before.len() ==> is_white_space(#[trigger] before[i]),
        forall|i: int| 0 <= i < after.len() ==> is_white_space(#[trigger] after[i]),
        kept.len() > 0 ==> !is_white_space(kept.first()) && !is_white_space(kept.last()),
    ensures
        trimmed(before + kept + after) == kept,
{
    let text = before + kept + after;
    if kept.len() > 0 {
        let start = before.len() as int;
        assert forall|j: int| 0 <= j < start implies is_white_space(#[trigger] text[j]) by {
            assert(text[j] == before[j]);
        }
        assert(text[start] == kept.first());
        lemma_without_leading_space(text, start);
        let rest = text.skip(start);
        assert forall|j: int| kept.len() <= j < rest.len() implies is_white_space(
            #[trigger] rest[j],
        ) by {
            assert(rest[j] == after[j - kept.len()]);
        }
        assert(rest[kept.len() - 1] == kept.last());
        lemma_without_trailing_space(rest, kept.len() as int);
        assert(rest.take(kept.len() as int) =~= kept);
    } else {
        assert forall|j: int| 0 <= j < text.len() implies is_white_space(#[trigger] text[j]) by {
            if j < before.len() {
                assert(text[j] == before[j]);
            } else {
                assert(text[j] == after[j - before.len()]);
            }
        }
        lemma_without_leading_space(text, text.len() as int);
        assert(text.skip(text.len() as int) =~= kept);
    }
}

/// Every text is trimmed to something between white space that neither begins
/// nor ends with it.
pub proof fn a_trimmed_text_has_its_place(text: Seq<char>) -> (ends: (int, int))
    ensures
        0 <= ends.0 <= ends.1 <= text.len(),
        trimmed(text) == text.subrange(ends.0, ends.1),
        forall|i: int| 0 <= i < ends.0 ==> is_white_space(#[trigger] text[i]),
        forall|i: int| ends.1 <= i < text.len() ==> is_white_space(#[trigger] text[i]),
        ends.0 < ends.1 ==> !is_white_space(text[ends.0]) && !is_white_space(text[ends.1 - 1]),
    decreases text.len(),
{
    if text.len() == 0 {
        assert(text.subrange(0, 0) =~= text);
        (0, 0)
    } else if is_white_space(text.first()) {
        let inner = a_trimmed_text_has_its_place(text.drop_first());
        assert(text.drop_first().subrange(inner.0, inner.1) =~= text.subrange(
            inner.0 + 1,
            inner.1 + 1,
        ));
        assert forall|i: int| 0 <= i < inner.0 + 1 implies is_white_space(#[trigger] text[i]) by {
            if i > 0 {
                assert(is_white_space(text.drop_first()[i - 1]));
            }
        }
        assert forall|i: int| inner.1 + 1 <= i < text.len() implies is_white_space(
            #[trigger] text[i],
        ) by {
            assert(is_white_space(text.drop_first()[i - 1]));
        }
        (inner.0 + 1, inner.1 + 1)
    } else {
        let end = lemma_trailing_end(text);
        lemma_without_trailing_space(text, end);
        assert(text.take(end) =~= text.subrange(0, end));
        if end == 0 {
            assert(is_white_space(text[0]));
        }
        (0, end)
    }
}

proof fn lemma_trailing_end(text: Seq<char>) -> (end: int)
    ensures
        0 <= end <= text.len(),
        forall|j: int| end <= j < text.len() ==> is_white_space(#[trigger] text[j]),
        end > 0 ==> !is_white_space(text[end - 1]),
    decreases text.len(),
{
    if text.len() > 0 && is_white_space(text.last()) {
        let end = lemma_trailing_end(text.drop_last());
        assert forall|j: int| end <= j < text.len() implies is_white_space(#[trigger] text[j]) by {
            if j < text.len() - 1 {
                assert(is_white_space(text.drop_last()[j]));
            }
        }
        end
    } else {
        text.len() as int
    }
}

/// Parts are joined one after the other with the separator between neighbours.
pub proof fn joining_adds_part_by_part(
    parts: Seq<Seq<char>>,
    part: Seq<char>,
    separator: Seq<char>,
)
    ensures
        joined(Seq::empty(), separator) == Seq::<char>::empty(),
        parts.len() == 0 ==> joined(parts.push(part), separator) == part,
        parts.len() > 0 ==> joined(parts.push(part), separator) == joined(parts, separator)
            + separator + part,
{
    assert(parts.push(part).drop_last() =~= parts);
}

/// Decimal notation is positional: a number is written as its tenth with one more
/// digit behind, and a negative one as its opposite with a sign before.
pub proof fn decimal_is_positional(tenth: nat, last: nat, c: char)
    requires
        last < 10,
        c as u32 == '0' as u32 + last,
    ensures
        tenth == 0 ==> decimal((10 * tenth + last) as int) == seq![c],
        tenth > 0 ==> decimal((10 * tenth + last) as int) == decimal(tenth as int).push(c),
        tenth > 0 ==> decimal(-(tenth as int)) == seq!['-'] + decimal(tenth as int),
{
    assert(digit(last) == c);
}

} // verus!
