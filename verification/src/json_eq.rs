//! When two JSON values are equal.

use vstd::prelude::*;
use vstd::std_specs::cmp::PartialEqSpecImpl;

use crate::json::{
    is_float_zero, items_view, lemma_has_name, lemma_member_at, members_view, numbers_match,
    values_match, FloatMatch, JsonNumber, JsonValue, JsonView,
};
use crate::text::same_text;

verus! {

fn reads_float_zero(text: &str) -> (r: bool)
    ensures
        r == is_float_zero(text@),
{
    same_text(text, "0.0") || same_text(text, "-0.0")
}

fn same_number(a: &JsonNumber, b: &JsonNumber) -> (r: bool)
    ensures
        r == numbers_match(a@, b@, FloatMatch::Equal),
{
    match (a, b) {
        (JsonNumber::PosInt(m), JsonNumber::PosInt(n)) => *m == *n,
        (JsonNumber::NegInt(m), JsonNumber::NegInt(n)) => *m == *n,
        (JsonNumber::PosInt(m), JsonNumber::NegInt(n)) => *n >= 0 && *m == *n as u64,
        (JsonNumber::NegInt(m), JsonNumber::PosInt(n)) => *m >= 0 && *m as u64 == *n,
        (JsonNumber::Float(m), JsonNumber::Float(n)) => same_text(m.text(), n.text()) || (
        reads_float_zero(m.text()) && reads_float_zero(n.text())),
        _ => false,
    }
}

/// Whether no later member has the name of the one at `at`.
fn is_last_of_name(members: &Vec<(String, JsonValue)>, at: usize) -> (r: bool)
    requires
        at < members@.len(),
    ensures
        r == (forall|j: int|
            at < j < members@.len() ==> (#[trigger] members@[j]).0@ != members@[at as int].0@),
{
    let n: usize = members.len();
    let mut i: usize = at + 1;
    while i < n
        invariant
            n == members@.len(),
            at < i <= n,
            forall|j: int| at < j < i ==> (#[trigger] members@[j]).0@ != members@[at as int].0@,
        decreases n - i,
    {
        if members[i].0 == members[at].0 {
            return false;
        }
        i = i + 1;
    }
    true
}

/// Every name that counts is that of a last member.
proof fn lemma_last_of_name(members: Seq<(String, JsonValue)>, name: Seq<char>) -> (at: int)
    requires
        members_view(members).contains_key(name),
    ensures
        0 <= at < members.len(),
        members[at].0@ == name,
        forall|j: int| at < j < members.len() ==> (#[trigger] members[j]).0@ != name,
    decreases members.len(),
{
    if members.last().0@ == name {
        members.len() - 1
    } else {
        let at = lemma_last_of_name(members.drop_last(), name);
        assert forall|j: int| at < j < members.len() implies (#[trigger] members[j]).0@ != name by {
            if j < members.len() - 1 {
                assert(members.drop_last()[j] == members[j]);
            }
        }
        at
    }
}

/// Whether every name of a member of `a` is that of a member of `b`.
fn names_within(a: &Vec<(String, JsonValue)>, b: &JsonValue) -> (r: bool)
    requires
        b@ is Object,
    ensures
        r == members_view(a@).dom().subset_of(b@->Object_0.dom()),
{
    let ghost theirs = b@->Object_0;
    for i in 0..a.len()
        invariant
            b@ == JsonView::Object(theirs),
            forall|j: int| 0 <= j < i ==> theirs.contains_key((#[trigger] a@[j]).0@),
    {
        if b.get(a[i].0.as_str()).is_none() {
            proof {
                lemma_has_name(a@, i as int);
            }
            return false;
        }
    }
    proof {
        assert forall|name: Seq<char>| members_view(a@).contains_key(name) implies
            #[trigger] theirs.contains_key(name) by {
            let at = lemma_last_of_name(a@, name);
        }
    }
    true
}

/// Whether two values are equal. The order of an object's members does not
/// matter, nor does the sign of a zero.
pub fn same_json(a: &JsonValue, b: &JsonValue) -> (r: bool)
    ensures
        r == values_match(a@, b@, FloatMatch::Equal),
    decreases a,
{
    match (a, b) {
        (JsonValue::Null, JsonValue::Null) => true,
        (JsonValue::Bool(x), JsonValue::Bool(y)) => *x == *y,
        (JsonValue::Number(x), JsonValue::Number(y)) => same_number(x, y),
        (JsonValue::Text(x), JsonValue::Text(y)) => *x == *y,
        (JsonValue::Array(xs), JsonValue::Array(ys)) => {
            let ghost left = items_view(xs@);
            let ghost right = items_view(ys@);
            if xs.len() != ys.len() {
                assert(left.len() != right.len());
                return false;
            }
            for i in 0..xs.len()
                invariant
                    *a is Array,
                    *xs == a->Array_0,
                    xs@.len() == ys@.len(),
                    left == items_view(xs@),
                    right == items_view(ys@),
                    a@ == JsonView::Array(left),
                    b@ == JsonView::Array(right),
                    left.len() == right.len(),
                    forall|j: int|
                        0 <= j < i ==> values_match(
                            #[trigger] left[j],
                            right[j],
                            FloatMatch::Equal,
                        ),
            {
                proof {
                    assert(decreases_to!(*a => a->Array_0));
                    assert(decreases_to!(*xs => xs@));
                    assert(decreases_to!(xs@ => xs@[i as int]));
                    assert(left[i as int] == xs@[i as int]@);
                    assert(right[i as int] == ys@[i as int]@);
                }
                if !same_json(&xs[i], &ys[i]) {
                    return false;
                }
            }
            true
        },
        (JsonValue::Object(xs), JsonValue::Object(ys)) => {
            let ghost left = members_view(xs@);
            let ghost right = members_view(ys@);
            if !names_within(ys, a) || !names_within(xs, b) {
                return false;
            }
            for i in 0..xs.len()
                invariant
                    *a is Object,
                    *xs == a->Object_0,
                    left == members_view(xs@),
                    right == members_view(ys@),
                    a@ == JsonView::Object(left),
                    b@ == JsonView::Object(right),
                    left.dom() == right.dom(),
                    forall|j: int|
                        #![trigger xs@[j]]
                        0 <= j < i && (forall|k: int|
                            j < k < xs@.len() ==> (#[trigger] xs@[k]).0@ != xs@[j].0@)
                            ==> values_match(
                            left[xs@[j].0@],
                            right[xs@[j].0@],
                            FloatMatch::Equal,
                        ),
            {
                if is_last_of_name(xs, i) {
                    proof {
                        lemma_member_at(xs@, xs@[i as int].0@, i as int);
                        assert(decreases_to!(*a => a->Object_0));
                        assert(decreases_to!(*xs => xs@));
                        assert(decreases_to!(xs@ => xs@[i as int]));
                        assert(decreases_to!(xs@[i as int] => xs@[i as int].1));
                    }
                    match b.get(xs[i].0.as_str()) {
                        Some(y) => {
                            if !same_json(&xs[i].1, y) {
                                return false;
                            }
                        },
                        None => {
                            return false;
                        },
                    }
                }
            }
            proof {
                assert forall|name: Seq<char>| left.contains_key(name) implies values_match(
                    #[trigger] left[name],
                    right[name],
                    FloatMatch::Equal,
                ) by {
                    let at = lemma_last_of_name(xs@, name);
                    assert(xs@[at].0@ == name);
                }
            }
            true
        },
        _ => false,
    }
}

impl PartialEq for JsonValue {
    fn eq(&self, other: &JsonValue) -> (r: bool) {
        same_json(self, other)
    }
}

impl PartialEqSpecImpl for JsonValue {
    open spec fn obeys_eq_spec() -> bool {
        true
    }

    open spec fn eq_spec(&self, other: &JsonValue) -> bool {
        values_match(self@, other@, FloatMatch::Equal)
    }
}

} // verus!
