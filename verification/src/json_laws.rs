//! What holds of JSON values.

use vstd::prelude::*;

use crate::json::{
    fits_within, is_short_decimal, lemma_member_at, lemma_no_member, member, member_text,
    opt_string_view, opt_view, or_empty, values_match, with_exponent, FloatMatch, JsonFloat,
    JsonNumber, JsonNumberView, JsonValue, JsonView,
};
use crate::json_facts::{has_text, holds, lacks, text_if_any, text_or_empty};

verus! {

/// A value is what it holds.
pub proof fn a_value_is_what_it_holds(
    truth: bool,
    text: String,
    positive: u64,
    negative: i64,
    other: JsonFloat,
    items: Vec<JsonValue>,
)
    ensures
        JsonValue::Null@ == JsonView::Null,
        JsonValue::Bool(truth)@ == JsonView::Bool(truth),
        JsonValue::Text(text)@ == JsonView::Text(text@),
        JsonValue::Number(JsonNumber::PosInt(positive))@ == JsonView::Number(
            JsonNumberView::Int(positive as int),
        ),
        JsonValue::Number(JsonNumber::NegInt(negative))@ == JsonView::Number(
            JsonNumberView::Int(negative as int),
        ),
        JsonValue::Number(JsonNumber::Float(other))@ == JsonView::Number(
            JsonNumberView::Float(other@),
        ),
        JsonValue::Array(items)@ matches JsonView::Array(views) && views.len() == items@.len()
            && forall|i: int| 0 <= i < views.len() ==> #[trigger] views[i] == items@[i]@,
{
}

/// An object has the members that it holds; of several with one name it has the
/// last.
pub proof fn the_last_of_a_name_is_the_member(
    members: Vec<(String, JsonValue)>,
    name: Seq<char>,
    at: int,
)
    ensures
        0 <= at < members@.len() && members@[at].0@ == name && (forall|j: int|
            at < j < members@.len() ==> (#[trigger] members@[j]).0@ != name) ==> holds(
            JsonValue::Object(members)@,
            name,
            members@[at].1@,
        ),
        (forall|j: int| 0 <= j < members@.len() ==> (#[trigger] members@[j]).0@ != name) ==> lacks(
            JsonValue::Object(members)@,
            name,
        ),
{
    if 0 <= at < members@.len() && members@[at].0@ == name && (forall|j: int|
        at < j < members@.len() ==> (#[trigger] members@[j]).0@ != name) {
        lemma_member_at(members@, name, at);
    }
    if forall|j: int| 0 <= j < members@.len() ==> (#[trigger] members@[j]).0@ != name {
        lemma_no_member(members@, name);
    }
}

/// A member is found where an object has it, a text where it has a text for it.
pub proof fn members_are_found_by_name(
    value: JsonView,
    name: Seq<char>,
    part: JsonView,
    text: Seq<char>,
)
    ensures
        member(value, name) == Some(part) <==> holds(value, name, part),
        member(value, name) is None <==> lacks(value, name),
        member_text(value, name) == Some(text) <==> has_text(value, name, text),
        text_if_any(value, name, member_text(value, name)),
        text_or_empty(value, name, or_empty(member_text(value, name))),
        or_empty(Some(text)) == text,
        or_empty(None).len() == 0,
{
}

/// What may be missing is what it is where it is there.
pub proof fn what_may_be_missing(value: JsonValue, text: String)
    ensures
        opt_view(Some(&value)) == Some(value@),
        opt_view(None) is None,
        opt_string_view(Some(text)) == Some(text@),
        opt_string_view(None) is None,
{
}

/// Values of different kinds are never equal; of one kind they are equal if what
/// they hold is, where neither the order of members nor the sign of a zero that
/// is no integer matters.
pub proof fn when_values_are_equal(
    a: JsonView,
    b: JsonView,
    m: int,
    s: Seq<char>,
)
    ensures
        a is Null ==> (values_match(a, b, FloatMatch::Equal) <==> b is Null),
        a is Bool || a is Text ==> (values_match(a, b, FloatMatch::Equal) <==> a == b),
        values_match(
            JsonView::Number(JsonNumberView::Int(m)),
            b,
            FloatMatch::Equal,
        ) <==> b == JsonView::Number(JsonNumberView::Int(m)),
        values_match(
            JsonView::Number(JsonNumberView::Float(s)),
            b,
            FloatMatch::Equal,
        ) <==> (b matches JsonView::Number(JsonNumberView::Float(u))
            && (u == s || ((s == "0.0"@ || s
            == "-0.0"@) && (u == "0.0"@ || u == "-0.0"@)))),
        a matches JsonView::Array(xs) ==> (values_match(a, b, FloatMatch::Equal) <==> (b
            matches JsonView::Array(ys) && ys.len() == xs.len() && forall|i: int|
            0 <= i < xs.len() ==> values_match(#[trigger] xs[i], ys[i], FloatMatch::Equal))),
        a matches JsonView::Object(xs) ==> (values_match(a, b, FloatMatch::Equal) <==> (b
            matches JsonView::Object(ys) && ys.dom() == xs.dom() && forall|name: Seq<char>|
            xs.dom().contains(name) ==> values_match(
                #[trigger] xs[name],
                ys[name],
                FloatMatch::Equal,
            ))),
{
}

/// What may be nested how deep: nothing that has no parts is nested, and an array
/// or an object is nested one deeper than its parts.
pub proof fn what_fits(value: JsonView, depth: nat, exact: bool, text: Seq<char>)
    ensures
        value is Null || value is Bool || value is Text ==> fits_within(value, depth, exact),
        value matches JsonView::Number(JsonNumberView::Int(_)) ==> fits_within(value, depth, exact),
        text.len() <= 16 && !text.contains('e') ==> fits_within(
            JsonView::Number(JsonNumberView::Float(text)),
            depth,
            exact,
        ),
        value matches JsonView::Array(items) && (forall|i: int|
            0 <= i < items.len()
                ==> fits_within(#[trigger] items[i], depth, exact)) ==> fits_within(
            value,
            depth + 1,
            exact,
        ),
        value matches JsonView::Object(members) && (forall|name: Seq<char>|
            members.dom().contains(name) ==> fits_within(#[trigger] members[name], depth, exact))
            ==> fits_within(value, depth + 1, exact),
{
    assert((depth + 1 - 1) as nat == depth);
    if text.len() <= 16 && !text.contains('e') {
        assert(text == with_exponent(text, 0));
        if text.contains('.') {
            assert(0 <= text.index_of('.') < text.len());
        }
        assert(is_short_decimal(text));
        reveal_strlit("e+308");
        if "e+308"@.is_suffix_of(text) {
            let end = text.subrange(text.len() - 5, text.len() as int);
            assert("e+308"@ =~= end);
            assert(end[0] == 'e');
            assert(text[text.len() - 5] == 'e');
        }
    }
}

} // verus!
