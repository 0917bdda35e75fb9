//! How values are written as JSON and read back.
//!
//! A record is written as an object with one member per field. It is read from
//! an object, whose other members are ignored, or from the array of its fields
//! in their order. A field that may be missing is written as `null` where it
//! is, and read as missing from `null` and, in an object, from no member at
//! all. A value of a plain enumeration is written as its name, and read from
//! its name or from an object whose only member has that name and is `null`.

use vstd::prelude::*;

use crate::json::{
    items_view, lemma_has_name, member, members_view, opt_view, JsonNumber, JsonNumberView,
    JsonValue, JsonView,
};

verus! {

/// A type with a JSON form.
pub trait Wire: Sized {
    /// What a value of the type is.
    type Model;

    spec fn model(self) -> Self::Model;

    /// The JSON form of what a value is.
    spec fn encode(model: Self::Model) -> JsonView;

    /// What a JSON value stands for, if it stands for anything.
    spec fn decode(json: JsonView) -> Option<Self::Model>;

    /// Reading gives back what was written.
    proof fn round_trip(model: Self::Model)
        ensures
            Self::decode(Self::encode(model)) == Some(model),
    ;

    /// Writes the value.
    fn to_json(&self) -> (r: JsonValue)
        ensures
            r@ == Self::encode(self.model()),
    ;

    /// Reads a value, if `json` stands for one.
    fn from_json(json: &JsonValue) -> (r: Option<Self>)
        ensures
            match r {
                Some(v) => Self::decode(json@) == Some(v.model()),
                None => Self::decode(json@) is None,
            },
    ;
}

/// A type whose values are never written as `null`.
pub trait WireNotNull: Wire {
    proof fn never_null(model: Self::Model)
        ensures
            Self::encode(model) !is Null,
    ;
}

/// What a value that may be missing is.
pub open spec fn opt_model<T: Wire>(value: Option<T>) -> Option<T::Model> {
    match value {
        Some(v) => Some(v.model()),
        None => None,
    }
}

/// What the values of a sequence are.
pub open spec fn models<T: Wire>(values: Seq<T>) -> Seq<T::Model> {
    Seq::new(values.len(), |i: int| values[i].model())
}

impl Wire for String {
    type Model = Seq<char>;

    open spec fn model(self) -> Seq<char> {
        self@
    }

    open spec fn encode(model: Seq<char>) -> JsonView {
        JsonView::Text(model)
    }

    open spec fn decode(json: JsonView) -> Option<Seq<char>> {
        match json {
            JsonView::Text(t) => Some(t),
            _ => None,
        }
    }

    proof fn round_trip(model: Seq<char>) {
    }

    fn to_json(&self) -> (r: JsonValue) {
        JsonValue::Text(self.clone())
    }

    fn from_json(json: &JsonValue) -> (r: Option<String>) {
        match json {
            JsonValue::Text(t) => Some(t.clone()),
            _ => None,
        }
    }
}

impl WireNotNull for String {
    proof fn never_null(model: Seq<char>) {
    }
}

impl Wire for bool {
    type Model = bool;

    open spec fn model(self) -> bool {
        self
    }

    open spec fn encode(model: bool) -> JsonView {
        JsonView::Bool(model)
    }

    open spec fn decode(json: JsonView) -> Option<bool> {
        match json {
            JsonView::Bool(b) => Some(b),
            _ => None,
        }
    }

    proof fn round_trip(model: bool) {
    }

    fn to_json(&self) -> (r: JsonValue) {
        JsonValue::Bool(*self)
    }

    fn from_json(json: &JsonValue) -> (r: Option<bool>) {
        match json {
            JsonValue::Bool(b) => Some(*b),
            _ => None,
        }
    }
}

impl Wire for u64 {
    type Model = u64;

    open spec fn model(self) -> u64 {
        self
    }

    open spec fn encode(model: u64) -> JsonView {
        JsonView::Number(JsonNumberView::Int(model as int))
    }

    open spec fn decode(json: JsonView) -> Option<u64> {
        match json {
            JsonView::Number(JsonNumberView::Int(n)) => if 0 <= n <= u64::MAX {
                Some(n as u64)
            } else {
                None
            },
            _ => None,
        }
    }

    proof fn round_trip(model: u64) {
    }

    fn to_json(&self) -> (r: JsonValue) {
        JsonValue::Number(JsonNumber::PosInt(*self))
    }

    fn from_json(json: &JsonValue) -> (r: Option<u64>) {
        match json {
            JsonValue::Number(JsonNumber::PosInt(n)) => Some(*n),
            JsonValue::Number(JsonNumber::NegInt(n)) => if *n >= 0 {
                Some(*n as u64)
            } else {
                None
            },
            _ => None,
        }
    }
}

impl Wire for JsonValue {
    type Model = JsonView;

    open spec fn model(self) -> JsonView {
        self@
    }

    open spec fn encode(model: JsonView) -> JsonView {
        model
    }

    open spec fn decode(json: JsonView) -> Option<JsonView> {
        Some(json)
    }

    proof fn round_trip(model: JsonView) {
    }

    fn to_json(&self) -> (r: JsonValue) {
        self.clone()
    }

    fn from_json(json: &JsonValue) -> (r: Option<JsonValue>) {
        Some(json.clone())
    }
}

impl<T: WireNotNull> Wire for Option<T> {
    type Model = Option<T::Model>;

    open spec fn model(self) -> Option<T::Model> {
        opt_model(self)
    }

    open spec fn encode(model: Option<T::Model>) -> JsonView {
        match model {
            Some(m) => T::encode(m),
            None => JsonView::Null,
        }
    }

    open spec fn decode(json: JsonView) -> Option<Option<T::Model>> {
        match json {
            JsonView::Null => Some(None),
            _ => match T::decode(json) {
                Some(m) => Some(Some(m)),
                None => None,
            },
        }
    }

    proof fn round_trip(model: Option<T::Model>) {
        if let Some(m) = model {
            T::never_null(m);
            T::round_trip(m);
        }
    }

    fn to_json(&self) -> (r: JsonValue) {
        match self {
            Some(v) => v.to_json(),
            None => JsonValue::Null,
        }
    }

    fn from_json(json: &JsonValue) -> (r: Option<Option<T>>) {
        match json {
            JsonValue::Null => Some(None),
            _ => match T::from_json(json) {
                Some(v) => Some(Some(v)),
                None => None,
            },
        }
    }
}

impl<T: Wire> Wire for Vec<T> {
    type Model = Seq<T::Model>;

    open spec fn model(self) -> Seq<T::Model> {
        models(self@)
    }

    open spec fn encode(model: Seq<T::Model>) -> JsonView {
        JsonView::Array(Seq::new(model.len(), |i: int| T::encode(model[i])))
    }

    open spec fn decode(json: JsonView) -> Option<Seq<T::Model>> {
        match json {
            JsonView::Array(items) => if forall|i: int|
                0 <= i < items.len() ==> T::decode(#[trigger] items[i]) is Some {
                Some(Seq::new(items.len(), |i: int| T::decode(items[i])->0))
            } else {
                None
            },
            _ => None,
        }
    }

    proof fn round_trip(model: Seq<T::Model>) {
        let items = Seq::new(model.len(), |i: int| T::encode(model[i]));
        assert forall|i: int| 0 <= i < items.len() implies T::decode(#[trigger] items[i]) == Some(
            model[i],
        ) by {
            T::round_trip(model[i]);
        }
        assert(Seq::new(items.len(), |i: int| T::decode(items[i])->0) =~= model);
    }

    fn to_json(&self) -> (r: JsonValue) {
        let mut items: Vec<JsonValue> = Vec::new();
        for i in 0..self.len()
            invariant
                items@.len() == i,
                forall|j: int|
                    0 <= j < i ==> (#[trigger] items@[j])@ == T::encode(self@[j].model()),
        {
            items.push(self[i].to_json());
        }
        let ghost model = models(self@);
        assert(items_view(items@) =~= Seq::new(model.len(), |i: int| T::encode(model[i])));
        JsonValue::Array(items)
    }

    fn from_json(json: &JsonValue) -> (r: Option<Vec<T>>) {
        match json {
            JsonValue::Array(items) => {
                let mut values: Vec<T> = Vec::new();
                let ghost views = items_view(items@);
                for i in 0..items.len()
                    invariant
                        values@.len() == i,
                        views == items_view(items@),
                        json@ == JsonView::Array(views),
                        forall|j: int|
                            0 <= j < i ==> T::decode(#[trigger] views[j]) == Some(
                                values@[j].model(),
                            ),
                {
                    assert(views[i as int] == items@[i as int]@);
                    match T::from_json(&items[i]) {
                        Some(value) => values.push(value),
                        None => {
                            return None;
                        },
                    }
                }
                assert(models(values@) =~= Seq::new(
                    views.len(),
                    |i: int| T::decode(views[i])->0,
                ));
                Some(values)
            },
            _ => None,
        }
    }
}

/// Whether a record of `arity` fields can be read from the value.
pub open spec fn is_record(json: JsonView, arity: nat) -> bool {
    match json {
        JsonView::Object(_) => true,
        JsonView::Array(items) => items.len() == arity,
        _ => false,
    }
}

/// The field of a record with this name, the `index`-th of them.
pub open spec fn field(json: JsonView, name: Seq<char>, index: int) -> Option<JsonView> {
    match json {
        JsonView::Array(items) => if 0 <= index < items.len() {
            Some(items[index])
        } else {
            None
        },
        _ => member(json, name),
    }
}

/// What a field that has to be there stands for.
pub open spec fn required<T: Wire>(json: JsonView, name: Seq<char>, index: int) -> Option<
    T::Model,
> {
    match field(json, name, index) {
        Some(v) => T::decode(v),
        None => None,
    }
}

/// What a field that may be missing stands for.
pub open spec fn optional<T: WireNotNull>(json: JsonView, name: Seq<char>, index: int) -> Option<
    Option<T::Model>,
> {
    match field(json, name, index) {
        Some(v) => Option::<T>::decode(v),
        None => Some(None),
    }
}

/// Whether a record of `arity` fields can be read from the value.
pub(crate) fn record_shape(json: &JsonValue, arity: usize) -> (r: bool)
    ensures
        r == is_record(json@, arity as nat),
{
    match json {
        JsonValue::Object(_) => true,
        JsonValue::Array(items) => items.len() == arity,
        _ => false,
    }
}

fn read_field<'a>(json: &'a JsonValue, name: &str, index: usize) -> (r: Option<&'a JsonValue>)
    ensures
        opt_view(r) == field(json@, name@, index as int),
{
    match json {
        JsonValue::Array(items) => {
            if index < items.len() {
                assert(items_view(items@)[index as int] == items@[index as int]@);
                Some(&items[index])
            } else {
                None
            }
        },
        _ => json.get(name),
    }
}

/// Reads a field that has to be there.
pub(crate) fn read_required<T: Wire>(json: &JsonValue, name: &str, index: usize) -> (r: Option<T>)
    ensures
        opt_model(r) == required::<T>(json@, name@, index as int),
{
    match read_field(json, name, index) {
        Some(value) => T::from_json(value),
        None => None,
    }
}

/// Reads a field that may be missing.
pub(crate) fn read_optional<T: WireNotNull>(json: &JsonValue, name: &str, index: usize) -> (r:
    Option<Option<T>>)
    ensures
        opt_model(r) == optional::<T>(json@, name@, index as int),
{
    match read_field(json, name, index) {
        Some(value) => Option::<T>::from_json(value),
        None => Some(None),
    }
}

/// The name that a value of a plain enumeration is written as.
pub open spec fn variant_name(json: JsonView) -> Option<Seq<char>> {
    match json {
        JsonView::Text(name) => Some(name),
        JsonView::Object(members) => if exists|name: Seq<char>|
            members == Map::<Seq<char>, JsonView>::empty().insert(name, JsonView::Null) {
            Some(
                choose|name: Seq<char>|
                    members == Map::<Seq<char>, JsonView>::empty().insert(name, JsonView::Null),
            )
        } else {
            None
        },
        _ => None,
    }
}

pub proof fn lemma_single_member(members: Map<Seq<char>, JsonView>, name: Seq<char>)
    requires
        members == Map::<Seq<char>, JsonView>::empty().insert(name, JsonView::Null),
    ensures
        variant_name(JsonView::Object(members)) == Some(name),
{
    let chosen = choose|other: Seq<char>|
        members == Map::<Seq<char>, JsonView>::empty().insert(other, JsonView::Null);
    assert(members == Map::<Seq<char>, JsonView>::empty().insert(chosen, JsonView::Null));
    assert(members.contains_key(name));
    assert(chosen == name);
}

proof fn lemma_members_one_name(members: Seq<(String, JsonValue)>, name: Seq<char>)
    requires
        members.len() > 0,
        forall|j: int| 0 <= j < members.len() ==> (#[trigger] members[j]).0@ == name,
    ensures
        members_view(members) =~= Map::<Seq<char>, JsonView>::empty().insert(
            name,
            members.last().1@,
        ),
    decreases members.len(),
{
    assert(members.last().0@ == name);
    if members.len() > 1 {
        assert forall|j: int| 0 <= j < members.drop_last().len() implies (
        #[trigger] members.drop_last()[j]).0@ == name by {
            assert(members.drop_last()[j] == members[j]);
        }
        lemma_members_one_name(members.drop_last(), name);
    } else {
        assert(members_view(members.drop_last()) =~= Map::<Seq<char>, JsonView>::empty());
    }
}

/// Reads the name of a value of a plain enumeration.
pub(crate) fn read_variant_name(json: &JsonValue) -> (r: Option<String>)
    ensures
        opt_model(r) == variant_name(json@),
{
    match json {
        JsonValue::Text(name) => Some(name.clone()),
        JsonValue::Object(members) => {
            let n: usize = members.len();
            if n == 0 {
                proof {
                    assert forall|name: Seq<char>|
                        members_view(members@) != Map::<Seq<char>, JsonView>::empty().insert(
                            name,
                            JsonView::Null,
                        ) by {
                        assert(!members_view(members@).contains_key(name));
                    }
                }
                return None;
            }
            let name = members[n - 1].0.clone();
            for i in 0..n
                invariant
                    n == members@.len(),
                    n > 0,
                    name == members@[n - 1].0,
                    json@ == JsonView::Object(members_view(members@)),
                    forall|j: int| 0 <= j < i ==> (#[trigger] members@[j]).0@ == name@,
            {
                if !(members[i].0 == name) {
                    proof {
                        lemma_has_name(members@, i as int);
                        lemma_has_name(members@, n - 1);
                        assert forall|other: Seq<char>|
                            members_view(members@) != Map::<Seq<char>, JsonView>::empty().insert(
                                other,
                                JsonView::Null,
                            ) by {
                            let single = Map::<Seq<char>, JsonView>::empty().insert(
                                other,
                                JsonView::Null,
                            );
                            if members_view(members@) == single {
                                assert(single.contains_key(members@[i as int].0@));
                                assert(single.contains_key(name@));
                            }
                        }
                    }
                    return None;
                }
            }
            proof {
                lemma_members_one_name(members@, name@);
            }
            match &members[n - 1].1 {
                JsonValue::Null => {
                    proof {
                        lemma_single_member(members_view(members@), name@);
                    }
                    Some(name)
                },
                _ => {
                    proof {
                        assert forall|other: Seq<char>|
                            members_view(members@) != Map::<Seq<char>, JsonView>::empty().insert(
                                other,
                                JsonView::Null,
                            ) by {
                            let single = Map::<Seq<char>, JsonView>::empty().insert(
                                other,
                                JsonView::Null,
                            );
                            if members_view(members@) == single {
                                assert(single.contains_key(name@));
                                assert(single[name@] is Null);
                            }
                        }
                    }
                    None
                },
            }
        },
        _ => None,
    }
}

} // verus!
