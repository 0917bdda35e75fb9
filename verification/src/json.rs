//! JSON values, their mathematical model, and the calls into `serde_json`
//! that read and write JSON text.

use vstd::prelude::*;

use crate::text::{decimal, joined};

verus! {

/// A number of `serde_json`, carried through without being looked into.
#[verifier::external_type_specification]
#[verifier::external_body]
pub struct ExSerdeNumber(serde_json::Number);

/// A value of `serde_json`, handed over as a whole.
#[verifier::external_type_specification]
#[verifier::external_body]
pub struct ExSerdeValue(serde_json::Value);

/// A number that is not an integer. It is known by its JSON text, and keeps
/// the number it was read as so that it is written back unchanged.
#[derive(Debug)]
pub struct JsonFloat {
    text: String,
    number: serde_json::Number,
}

/// A JSON number.
#[derive(Debug)]
pub enum JsonNumber {
    /// An integer from zero up.
    PosInt(u64),
    /// An integer below zero.
    NegInt(i64),
    /// Any other number.
    Float(JsonFloat),
}

/// A JSON value. Of two members of an object with the same name, the later
/// one counts.
#[derive(Debug)]
pub enum JsonValue {
    Null,
    Bool(bool),
    Number(JsonNumber),
    Text(String),
    Array(Vec<JsonValue>),
    Object(Vec<(String, JsonValue)>),
}

/// What a JSON number is: an integer, or the text of another number.
pub enum JsonNumberView {
    Int(int),
    Float(Seq<char>),
}

/// What a JSON value is. The members of an object have no order.
pub enum JsonView {
    Null,
    Bool(bool),
    Number(JsonNumberView),
    Text(Seq<char>),
    Array(Seq<JsonView>),
    Object(Map<Seq<char>, JsonView>),
}

impl JsonFloat {
    /// The JSON text of the number.
    pub closed spec fn view(self) -> Seq<char> {
        self.text@
    }

    /// The JSON text of the number.
    pub fn text(&self) -> (r: &str)
        ensures
            r@ == self@,
    {
        self.text.as_str()
    }

    /// The same number once more.
    ///
    /// Calls `serde_json::Number::clone`, which the crate derives; the claim is
    /// that the copy has the text of the number copied.
    #[verifier::external_body]
    fn duplicate(&self) -> (r: JsonFloat)
        ensures
            r@ == self@,
    {
        JsonFloat { text: self.text.clone(), number: self.number.clone() }
    }
}

impl JsonNumber {
    pub open spec fn view(self) -> JsonNumberView {
        match self {
            JsonNumber::PosInt(n) => JsonNumberView::Int(n as int),
            JsonNumber::NegInt(n) => JsonNumberView::Int(n as int),
            JsonNumber::Float(f) => JsonNumberView::Float(f@),
        }
    }
}

impl JsonValue {
    pub open spec fn view(self) -> JsonView
        decreases self,
    {
        match self {
            JsonValue::Null => JsonView::Null,
            JsonValue::Bool(b) => JsonView::Bool(b),
            JsonValue::Number(n) => JsonView::Number(n@),
            JsonValue::Text(s) => JsonView::Text(s@),
            JsonValue::Array(items) => JsonView::Array(items_view(items@)),
            JsonValue::Object(members) => JsonView::Object(members_view(members@)),
        }
    }
}

/// What the items of an array are.
pub open spec fn items_view(items: Seq<JsonValue>) -> Seq<JsonView>
    decreases items,
{
    Seq::new(
        items.len(),
        |i: int|
            if 0 <= i < items.len() {
                items[i].view()
            } else {
                JsonView::Null
            },
    )
}

/// The members of an object, by name; the last of each name.
pub open spec fn members_view(members: Seq<(String, JsonValue)>) -> Map<Seq<char>, JsonView>
    decreases members,
{
    if members.len() == 0 {
        Map::empty()
    } else {
        members_view(members.drop_last()).insert(members.last().0@, members.last().1.view())
    }
}

/// The value behind a reference that may be missing.
pub open spec fn opt_view(value: Option<&JsonValue>) -> Option<JsonView> {
    match value {
        Some(v) => Some(v@),
        None => None,
    }
}

/// The value, where there is one.
pub open spec fn owned_view(value: Option<JsonValue>) -> Option<JsonView> {
    match value {
        Some(v) => Some(v@),
        None => None,
    }
}

/// The characters of a text that may be missing.
pub open spec fn opt_string_view(text: Option<String>) -> Option<Seq<char>> {
    match text {
        Some(t) => Some(t@),
        None => None,
    }
}

/// Copies a text that may be missing.
pub(crate) fn copy_text(text: &Option<String>) -> (r: Option<String>)
    ensures
        opt_string_view(r) == opt_string_view(*text),
{
    match text {
        Some(t) => Some(t.clone()),
        None => None,
    }
}

/// The member `name` of an object; nothing has members but an object.
pub open spec fn member(value: JsonView, name: Seq<char>) -> Option<JsonView> {
    match value {
        JsonView::Object(members) => if members.contains_key(name) {
            Some(members[name])
        } else {
            None
        },
        _ => None,
    }
}

/// The characters of a text; no other value is one.
pub open spec fn text_of(value: Option<JsonView>) -> Option<Seq<char>> {
    match value {
        Some(JsonView::Text(t)) => Some(t),
        _ => None,
    }
}

/// The member `name` of an object, where it is a text.
pub open spec fn member_text(value: JsonView, name: Seq<char>) -> Option<Seq<char>> {
    text_of(member(value, name))
}

/// The text, or the empty one where there is none.
pub open spec fn or_empty(text: Option<Seq<char>>) -> Seq<char> {
    match text {
        Some(t) => t,
        None => Seq::empty(),
    }
}

/// How closely two JSON values match in their numbers that are no integers.
pub enum FloatMatch {
    /// They are equal; so are the two zeros.
    Equal,
    /// They are any such numbers.
    Any,
}

/// Whether this is the JSON text of a zero that is no integer.
pub open spec fn is_float_zero(text: Seq<char>) -> bool {
    text == "0.0"@ || text == "-0.0"@
}

/// Whether two numbers match.
pub open spec fn numbers_match(a: JsonNumberView, b: JsonNumberView, floats: FloatMatch) -> bool {
    match (a, b) {
        (JsonNumberView::Int(m), JsonNumberView::Int(n)) => m == n,
        (JsonNumberView::Float(m), JsonNumberView::Float(n)) => {
            ||| floats is Any
            ||| m == n
            ||| is_float_zero(m) && is_float_zero(n)
        },
        _ => false,
    }
}

/// Whether two values are the same but for their numbers that are no integers,
/// and those match.
pub open spec fn values_match(a: JsonView, b: JsonView, floats: FloatMatch) -> bool
    decreases a,
{
    match (a, b) {
        (JsonView::Null, JsonView::Null) => true,
        (JsonView::Bool(x), JsonView::Bool(y)) => x == y,
        (JsonView::Number(x), JsonView::Number(y)) => numbers_match(x, y, floats),
        (JsonView::Text(x), JsonView::Text(y)) => x == y,
        (JsonView::Array(xs), JsonView::Array(ys)) => xs.len() == ys.len() && forall|i: int|
            0 <= i < xs.len() ==> values_match(#[trigger] xs[i], ys[i], floats),
        (JsonView::Object(xs), JsonView::Object(ys)) => xs.dom() == ys.dom() && forall|
            name: Seq<char>,
        |
            xs.contains_key(name) ==> values_match(#[trigger] xs[name], ys[name], floats),
        _ => false,
    }
}

/// A number in JSON text: its digits, and a power of ten to multiply them by
/// unless that is one.
pub open spec fn with_exponent(digits: Seq<char>, exponent: int) -> Seq<char> {
    if exponent == 0 {
        digits
    } else if exponent > 0 {
        digits + "e+"@ + decimal(exponent)
    } else {
        digits + "e"@ + decimal(exponent)
    }
}

/// How many of the digits stand behind the point.
pub open spec fn fraction_digits(digits: Seq<char>) -> int {
    if digits.contains('.') {
        digits.len() - 1 - digits.index_of('.')
    } else {
        0
    }
}

/// Whether the JSON text of a number has at most fifteen digits, which as an
/// integer are multiplied or divided by a power of ten up to the 22nd.
pub open spec fn is_short_decimal(text: Seq<char>) -> bool {
    exists|digits: Seq<char>, exponent: int|
        {
            &&& text == #[trigger] with_exponent(digits, exponent)
            &&& digits.len() <= 16 && !digits.contains('e')
            &&& -22 <= exponent - fraction_digits(digits) <= 22
        }
}

/// Whether the JSON text of a number has the largest exponent there is.
pub open spec fn is_huge(text: Seq<char>) -> bool {
    "e+308"@.is_suffix_of(text)
}

/// Whether the value has arrays and objects inside each other at most `depth`
/// deep, and no number in it that is huge. Where it is to be exact, the
/// numbers are integers and short decimals.
pub open spec fn fits_within(value: JsonView, depth: nat, exact: bool) -> bool
    decreases depth,
{
    match value {
        JsonView::Null => true,
        JsonView::Bool(_) => true,
        JsonView::Number(JsonNumberView::Int(_)) => true,
        JsonView::Number(JsonNumberView::Float(text)) => !is_huge(text) && (exact
            ==> is_short_decimal(text)),
        JsonView::Text(_) => true,
        JsonView::Array(items) => depth > 0 && forall|i: int|
            0 <= i < items.len() ==> fits_within(#[trigger] items[i], (depth - 1) as nat, exact),
        JsonView::Object(members) => depth > 0 && forall|name: Seq<char>|
            members.contains_key(name) ==> fits_within(
                #[trigger] members[name],
                (depth - 1) as nat,
                exact,
            ),
    }
}

/// What fits where it is to be exact fits where it is not.
pub proof fn lemma_exact_fits(value: JsonView, depth: nat)
    requires
        fits_within(value, depth, true),
    ensures
        fits_within(value, depth, false),
    decreases depth,
{
    match value {
        JsonView::Array(items) => {
            assert forall|i: int| 0 <= i < items.len() implies fits_within(
                #[trigger] items[i],
                (depth - 1) as nat,
                false,
            ) by {
                lemma_exact_fits(items[i], (depth - 1) as nat);
            }
        },
        JsonView::Object(members) => {
            assert forall|name: Seq<char>| members.contains_key(name) implies fits_within(
                #[trigger] members[name],
                (depth - 1) as nat,
                false,
            ) by {
                lemma_exact_fits(members[name], (depth - 1) as nat);
            }
        },
        _ => {},
    }
}

/// The value that `serde_json` reads from a JSON text, or `None` where it
/// reports an error.
pub uninterp spec fn parsed_json(text: Seq<char>) -> Option<JsonView>;

/// The JSON text that `serde_json` writes for a value.
pub uninterp spec fn written_json(value: JsonView) -> Seq<char>;

/// Whether nothing in a text is escaped in JSON.
pub open spec fn is_plain_text(text: Seq<char>) -> bool {
    forall|i: int|
        0 <= i < text.len() ==> #[trigger] text[i] as u32 >= 0x20 && text[i] != '"' && text[i]
            != '\\'
}

/// The JSON text of a value: what is shortest to say of it, where that is known.
pub open spec fn written_text(value: JsonView) -> Seq<char> {
    match value {
        JsonView::Text(t) => if is_plain_text(t) {
            "\""@ + t + "\""@
        } else {
            written_json(value)
        },
        JsonView::Array(items) => if items.len() == 0 {
            "[]"@
        } else {
            written_json(value)
        },
        _ => written_json(value),
    }
}

/// Names and values, in their order.
pub open spec fn entries_view(members: Seq<(String, JsonValue)>) -> Seq<(Seq<char>, JsonView)> {
    members.map_values(|m: (String, JsonValue)| (m.0@, m.1@))
}

/// The JSON text of a name and a value.
pub open spec fn entry_text(entry: (Seq<char>, JsonView)) -> Seq<char> {
    written_text(JsonView::Text(entry.0)) + ":"@ + written_text(entry.1)
}

/// The JSON text of an object with its members in this order.
pub open spec fn object_text(entries: Seq<(Seq<char>, JsonView)>) -> Seq<char> {
    "{"@ + joined(entries.map_values(|e: (Seq<char>, JsonView)| entry_text(e)), ","@) + "}"@
}

/// The text of an array that wants nothing but its closing bracket, with one more
/// item after the `count` that it has.
pub open spec fn with_item(begun: Seq<char>, count: nat, item: Seq<char>) -> Seq<char> {
    if count == 0 {
        begun + item
    } else {
        begun + ","@ + item
    }
}

/// Whether all members fit.
pub open spec fn members_fit(
    members: Seq<(String, JsonValue)>,
    depth: nat,
    exact: bool,
) -> bool {
    forall|i: int|
        0 <= i < members.len() ==> fits_within((#[trigger] members[i]).1@, depth, exact)
}

/// Reads a JSON text.
///
/// Calls `serde_json::from_str` for a `serde_json::Value` and changes the value
/// into the library's own type. The claim is that the result depends on the
/// characters of the text alone; `parsed_json` names it.
#[verifier::external_body]
pub(crate) fn parse_json(text: &str) -> (r: Option<JsonValue>)
    ensures
        owned_view(r) == parsed_json(text@),
{
    match serde_json::from_str::<serde_json::Value>(text) {
        Ok(value) => Some(from_serde(value)),
        Err(_) => None,
    }
}

/// Writes a value as compact JSON text.
///
/// Changes the value into a `serde_json::Value` and calls its `to_string`. The
/// claims are that the text depends on the value alone (`written_json` names
/// it), that a text without anything to escape is only put in quotes and an
/// empty array is two brackets, that no control character comes out (strings are
/// escaped and nothing is put between tokens), and two things about what
/// `serde_json::from_str` reads from the text, provided that the value is nested
/// no deeper than the parser goes.
///
/// First, the parser reads the value back but for the numbers that are no
/// integers, and reads such a number as another such number. It works those out
/// by one multiplication or by divisions, and reports no error unless that
/// comes to infinity, which takes a number with the largest exponent.
///
/// Second, a number of at most fifteen digits and with a small power of ten is
/// read back as it was: its digits and the power of ten that the parser
/// multiplies or divides them by are exact, so the outcome is the number nearest
/// to the text, which is the one that was written. How close other numbers come
/// is left unsaid.
#[verifier::external_body]
pub(crate) fn write_json(value: &JsonValue) -> (r: String)
    ensures
        r@ == written_json(value@),
        r@ == written_text(value@),
        forall|i: int| 0 <= i < r@.len() ==> #[trigger] r@[i] as u32 >= 0x20,
        fits_within(value@, 127, false) ==> parsed_json(r@) is Some && values_match(
            value@,
            parsed_json(r@)->0,
            FloatMatch::Any,
        ),
        fits_within(value@, 127, true) ==> parsed_json(r@) == Some(value@),
{
    to_serde(value).to_string()
}

/// Writes an object with its members in the order given, as compact JSON text.
///
/// Changes the values into `serde_json::Value`s and calls
/// `serde::Serializer::collect_map` on a `serde_json::Serializer`. The claims
/// are that the text is that of the names and values one after the other, and,
/// where the values are nested no deeper than the parser goes inside an object
/// inside an array, what `serde_json::from_str` reads from it: the object, as
/// `write_json` says of its values, where the last of two members with one name
/// counts; and, put behind the items of an array, one more item, which is what
/// the text is read as alone.
#[verifier::external_body]
pub(crate) fn write_members(members: &Vec<(String, JsonValue)>) -> (r: String)
    ensures
        r@ == object_text(entries_view(members@)),
        members_fit(members@, 125, false) ==> parsed_json(r@) is Some && values_match(
            JsonView::Object(members_view(members@)),
            parsed_json(r@)->0,
            FloatMatch::Any,
        ),
        members_fit(members@, 125, true) ==> parsed_json(r@) == Some(
            JsonView::Object(members_view(members@)),
        ),
        members_fit(members@, 125, false) ==> forall|begun: Seq<char>, items: Seq<JsonView>|
            parsed_json(begun + "]"@) == Some(JsonView::Array(items)) ==> #[trigger] parsed_json(
                with_item(begun, items.len(), r@) + "]"@,
            ) == Some(JsonView::Array(items.push(parsed_json(r@)->0))),
{
    let mut out: Vec<u8> = Vec::new();
    let entries = members.iter().map(|m| (&m.0, to_serde(&m.1)));
    let mut serializer = serde_json::Serializer::new(&mut out);
    match serde::Serializer::collect_map(&mut serializer, entries) {
        Ok(_) => String::from_utf8(out).unwrap_or_default(),
        Err(_) => String::new(),
    }
}

/// Changes a `serde_json::Value` into the library's own type, part by part.
/// Claims nothing.
#[verifier::external_body]
fn from_serde(value: serde_json::Value) -> (r: JsonValue) {
    match value {
        serde_json::Value::Null => JsonValue::Null,
        serde_json::Value::Bool(b) => JsonValue::Bool(b),
        serde_json::Value::Number(n) => JsonValue::Number(number_from_serde(n)),
        serde_json::Value::String(s) => JsonValue::Text(s),
        serde_json::Value::Array(items) => {
            JsonValue::Array(items.into_iter().map(from_serde).collect())
        },
        serde_json::Value::Object(members) => {
            JsonValue::Object(members.into_iter().map(|m| (m.0, from_serde(m.1))).collect())
        },
    }
}

/// Changes a `serde_json::Number` into the library's own type. Claims nothing.
#[verifier::external_body]
fn number_from_serde(number: serde_json::Number) -> (r: JsonNumber) {
    match (number.as_u64(), number.as_i64()) {
        (Some(n), _) => JsonNumber::PosInt(n),
        (None, Some(n)) => JsonNumber::NegInt(n),
        (None, None) => JsonNumber::Float(JsonFloat { text: number.to_string(), number }),
    }
}

/// Changes a value into a `serde_json::Value`, part by part. Claims nothing.
///
/// The members of an object go in one after the other, and each takes the place
/// of an earlier one with the same name.
#[verifier::external_body]
fn to_serde(value: &JsonValue) -> (r: serde_json::Value) {
    match value {
        JsonValue::Null => serde_json::Value::Null,
        JsonValue::Bool(b) => serde_json::Value::Bool(*b),
        JsonValue::Number(n) => serde_json::Value::Number(number_to_serde(n)),
        JsonValue::Text(s) => serde_json::Value::String(s.clone()),
        JsonValue::Array(items) => {
            serde_json::Value::Array(items.iter().map(to_serde).collect())
        },
        JsonValue::Object(members) => {
            let mut map = serde_json::Map::new();
            map.extend(members.iter().map(|m| (m.0.clone(), to_serde(&m.1))));
            serde_json::Value::Object(map)
        },
    }
}

/// Changes a number into a `serde_json::Number`. Claims nothing.
#[verifier::external_body]
fn number_to_serde(number: &JsonNumber) -> (r: serde_json::Number) {
    match number {
        JsonNumber::PosInt(n) => serde_json::Number::from(*n),
        JsonNumber::NegInt(n) => serde_json::Number::from(*n),
        JsonNumber::Float(f) => f.number.clone(),
    }
}

/// The last member of a name is the one that counts.
pub proof fn lemma_member_at(members: Seq<(String, JsonValue)>, name: Seq<char>, at: int)
    requires
        0 <= at < members.len(),
        members[at].0@ == name,
        forall|j: int| at < j < members.len() ==> (#[trigger] members[j]).0@ != name,
    ensures
        members_view(members).contains_key(name),
        members_view(members)[name] == members[at].1@,
    decreases members.len(),
{
    if at < members.len() - 1 {
        assert(members.last().0@ != name);
        assert forall|j: int| at < j < members.drop_last().len() implies (
        #[trigger] members.drop_last()[j]).0@ != name by {
            assert(members.drop_last()[j] == members[j]);
        }
        lemma_member_at(members.drop_last(), name, at);
    }
}

/// A member's name is a name that counts.
pub proof fn lemma_has_name(members: Seq<(String, JsonValue)>, at: int)
    requires
        0 <= at < members.len(),
    ensures
        members_view(members).contains_key(members[at].0@),
    decreases members.len(),
{
    if at < members.len() - 1 {
        assert(members.drop_last()[at] == members[at]);
        lemma_has_name(members.drop_last(), at);
    }
}

/// A name that no member has is no member's.
pub proof fn lemma_no_member(members: Seq<(String, JsonValue)>, name: Seq<char>)
    requires
        forall|j: int| 0 <= j < members.len() ==> (#[trigger] members[j]).0@ != name,
    ensures
        !members_view(members).contains_key(name),
    decreases members.len(),
{
    if members.len() > 0 {
        assert(members.last().0@ != name);
        assert forall|j: int| 0 <= j < members.drop_last().len() implies (
        #[trigger] members.drop_last()[j]).0@ != name by {
            assert(members.drop_last()[j] == members[j]);
        }
        lemma_no_member(members.drop_last(), name);
    }
}

impl JsonValue {
    /// The member `name`, where the value is an object that has it.
    pub fn get(&self, name: &str) -> (r: Option<&JsonValue>)
        ensures
            opt_view(r) == member(self@, name@),
    {
        match self {
            JsonValue::Object(members) => {
                let wanted = name.to_string();
                let mut i: usize = members.len();
                while i > 0
                    invariant
                        i <= members@.len(),
                        wanted@ == name@,
                        self@ == JsonView::Object(members_view(members@)),
                        forall|j: int|
                            i <= j < members@.len() ==> (#[trigger] members@[j]).0@ != name@,
                    decreases i,
                {
                    i = i - 1;
                    if members[i].0 == wanted {
                        proof {
                            lemma_member_at(members@, name@, i as int);
                        }
                        return Some(&members[i].1);
                    }
                }
                proof {
                    lemma_no_member(members@, name@);
                }
                None
            },
            _ => None,
        }
    }

    /// The member `name`, where the value is an object that has it as a text.
    pub fn get_text(&self, name: &str) -> (r: Option<String>)
        ensures
            opt_string_view(r) == member_text(self@, name@),
    {
        match self.get(name) {
            Some(JsonValue::Text(t)) => Some(t.clone()),
            _ => None,
        }
    }

    /// The member `name` as a text, or the empty text where there is none.
    pub fn get_text_or_empty(&self, name: &str) -> (r: String)
        ensures
            r@ == or_empty(member_text(self@, name@)),
    {
        match self.get_text(name) {
            Some(t) => t,
            None => String::new(),
        }
    }
}

impl Clone for JsonValue {
    fn clone(&self) -> (r: JsonValue)
        ensures
            r@ == self@,
        decreases self,
    {
        match self {
            JsonValue::Null => JsonValue::Null,
            JsonValue::Bool(b) => JsonValue::Bool(*b),
            JsonValue::Number(JsonNumber::PosInt(n)) => JsonValue::Number(JsonNumber::PosInt(*n)),
            JsonValue::Number(JsonNumber::NegInt(n)) => JsonValue::Number(JsonNumber::NegInt(*n)),
            JsonValue::Number(JsonNumber::Float(f)) => JsonValue::Number(
                JsonNumber::Float(f.duplicate()),
            ),
            JsonValue::Text(s) => JsonValue::Text(s.clone()),
            JsonValue::Array(items) => {
                let mut copy: Vec<JsonValue> = Vec::new();
                for i in 0..items.len()
                    invariant
                        copy@.len() == i,
                        *self is Array,
                        *items == self->Array_0,
                        forall|j: int| 0 <= j < i ==> (#[trigger] copy@[j])@ == items@[j]@,
                {
                    proof {
                        assert(decreases_to!(*self => self->Array_0));
                        assert(decreases_to!(*items => items@));
                        assert(decreases_to!(items@ => items@[i as int]));
                    }
                    copy.push(items[i].clone());
                }
                assert(items_view(copy@) =~= items_view(items@));
                JsonValue::Array(copy)
            },
            JsonValue::Object(members) => {
                let mut copy: Vec<(String, JsonValue)> = Vec::new();
                for i in 0..members.len()
                    invariant
                        copy@.len() == i,
                        *self is Object,
                        *members == self->Object_0,
                        members_view(copy@) == members_view(members@.take(i as int)),
                {
                    let ghost before = copy@;
                    proof {
                        assert(decreases_to!(*self => self->Object_0));
                        assert(decreases_to!(*members => members@));
                        assert(decreases_to!(members@ => members@[i as int]));
                        assert(decreases_to!(members@[i as int] => members@[i as int].1));
                    }
                    copy.push((members[i].0.clone(), members[i].1.clone()));
                    proof {
                        assert(copy@.drop_last() =~= before);
                        assert(members@.take(i + 1).drop_last() =~= members@.take(i as int));
                    }
                }
                assert(members@.take(members@.len() as int) =~= members@);
                JsonValue::Object(copy)
            },
        }
    }
}

/// Adds a member to those of an object under construction.
pub(crate) fn add_member(members: &mut Vec<(String, JsonValue)>, name: &str, value: JsonValue)
    ensures
        members_view(final(members)@) == members_view(old(members)@).insert(name@, value@),
        entries_view(final(members)@) == entries_view(old(members)@).push((name@, value@)),
{
    let ghost before = members@;
    members.push((name.to_string(), value));
    assert(members@.drop_last() =~= before);
    assert(entries_view(members@) =~= entries_view(before).push((name@, value@)));
}

} // verus!
