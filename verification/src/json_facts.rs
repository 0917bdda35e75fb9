//! What is said of JSON values in the laws: which members an object has, and how
//! they read.

use vstd::prelude::*;

use crate::json::JsonView;
use crate::wire::{Wire, WireNotNull};

verus! {

/// The value is an object that has this member.
pub open spec fn holds(value: JsonView, name: Seq<char>, part: JsonView) -> bool {
    value matches JsonView::Object(members) && members.dom().contains(name) && members[name] == part
}

/// The value is no object that has a member of this name.
pub open spec fn lacks(value: JsonView, name: Seq<char>) -> bool {
    !(value matches JsonView::Object(members) && members.dom().contains(name))
}

/// The value is an object that has this text for a member.
pub open spec fn has_text(value: JsonView, name: Seq<char>, text: Seq<char>) -> bool {
    holds(value, name, JsonView::Text(text))
}

/// The value is no object that has a text for the member.
pub open spec fn lacks_text(value: JsonView, name: Seq<char>) -> bool {
    !(value matches JsonView::Object(members) && members.dom().contains(name) && members[name]
        is Text)
}

/// The text is the one that the value has for a member, or is empty where it has
/// none.
pub open spec fn text_or_empty(value: JsonView, name: Seq<char>, text: Seq<char>) -> bool {
    has_text(value, name, text) || (lacks_text(value, name) && text.len() == 0)
}

/// The text is the one that the value has for a member, if it has one.
pub open spec fn text_if_any(value: JsonView, name: Seq<char>, text: Option<Seq<char>>) -> bool {
    match text {
        Some(t) => has_text(value, name, t),
        None => lacks_text(value, name),
    }
}

/// The value is an object that has the JSON forms of these values, in order, for
/// a member.
pub open spec fn has_list<T: Wire>(value: JsonView, name: Seq<char>, values: Seq<T>) -> bool {
    &&& value matches JsonView::Object(members)
    &&& members.dom().contains(name)
    &&& members[name] matches JsonView::Array(items)
    &&& items.len() == values.len()
    &&& forall|i: int|
        0 <= i < items.len() ==> #[trigger] items[i] == T::encode(values[i].model())
}

/// The value is an object that has a member, which stands for the model.
pub open spec fn reads<T: Wire>(value: JsonView, name: Seq<char>, model: T::Model) -> bool {
    value matches JsonView::Object(members) && members.dom().contains(name) && T::decode(
        members[name],
    ) == Some(model)
}

/// The value has a member that stands for the model, or none but `null` where
/// there is no model.
pub open spec fn may_read<T: WireNotNull>(
    value: JsonView,
    name: Seq<char>,
    model: Option<T::Model>,
) -> bool {
    match model {
        Some(m) => reads::<T>(value, name, m) && !holds(value, name, JsonView::Null),
        None => lacks(value, name) || holds(value, name, JsonView::Null),
    }
}

/// The parameters of a message are these: the member of that name, or `null`
/// where there is none.
pub open spec fn params_are(message: JsonView, params: JsonView) -> bool {
    holds(message, "params"@, params) || (lacks(message, "params"@) && params == JsonView::Null)
}

} // verus!
