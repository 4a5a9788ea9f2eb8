//! Untyped request and response values: null, booleans, numbers, text, arrays
//! and objects.

use serde_json::Value;
use vstd::prelude::*;
use crate::text::{chars_eq, to_chars};

verus! {

/// A number: a non-negative integer, a negative integer, or any other number
/// kept as the text that spells it.
#[derive(Debug)]
pub enum JsonNumber {
    Unsigned(u64),
    Negative(i64),
    Real(String),
}

/// What a [`JsonNumber`] holds, as mathematical values.
pub enum JsonNumberView {
    Unsigned(u64),
    Negative(i64),
    Real(Seq<char>),
}

impl View for JsonNumber {
    type V = JsonNumberView;

    open spec fn view(&self) -> JsonNumberView {
        match self {
            JsonNumber::Unsigned(n) => JsonNumberView::Unsigned(*n),
            JsonNumber::Negative(n) => JsonNumberView::Negative(*n),
            JsonNumber::Real(t) => JsonNumberView::Real(t@),
        }
    }
}

impl Clone for JsonNumber {
    fn clone(&self) -> (r: Self)
        ensures
            r@ == self@,
    {
        match self {
            JsonNumber::Unsigned(n) => JsonNumber::Unsigned(*n),
            JsonNumber::Negative(n) => JsonNumber::Negative(*n),
            JsonNumber::Real(t) => JsonNumber::Real(t.clone()),
        }
    }
}

/// An untyped value. An object keeps its fields in the order given.
#[derive(Debug)]
pub enum JsonValue {
    Null,
    Bool(bool),
    Number(JsonNumber),
    Text(String),
    Array(Vec<JsonValue>),
    Object(Vec<(String, JsonValue)>),
}

/// What a [`JsonValue`] holds, as mathematical values.
pub enum JsonView {
    Null,
    Bool(bool),
    Number(JsonNumberView),
    Text(Seq<char>),
    Array(Seq<JsonView>),
    Object(Seq<(Seq<char>, JsonView)>),
}

/// What `v` holds.
pub open spec fn json_view(v: JsonValue) -> JsonView
    decreases v, 0nat,
{
    match v {
        JsonValue::Null => JsonView::Null,
        JsonValue::Bool(b) => JsonView::Bool(b),
        JsonValue::Number(n) => JsonView::Number(n@),
        JsonValue::Text(s) => JsonView::Text(s@),
        JsonValue::Array(items) => JsonView::Array(views_upto(items@, items@.len())),
        JsonValue::Object(fields) => JsonView::Object(fields_upto(fields@, fields@.len())),
    }
}

/// What the first `n` values of `items` hold.
pub open spec fn views_upto(items: Seq<JsonValue>, n: nat) -> Seq<JsonView>
    decreases items, n,
{
    if n == 0 || n > items.len() {
        Seq::empty()
    } else {
        views_upto(items, (n - 1) as nat).push(json_view(items[n - 1]))
    }
}

/// What the first `n` fields of `fields` hold.
pub open spec fn fields_upto(fields: Seq<(String, JsonValue)>, n: nat) -> Seq<
    (Seq<char>, JsonView),
>
    decreases fields, n,
{
    if n == 0 || n > fields.len() {
        Seq::empty()
    } else {
        fields_upto(fields, (n - 1) as nat).push((fields[n - 1].0@, json_view(fields[n - 1].1)))
    }
}

impl View for JsonValue {
    type V = JsonView;

    open spec fn view(&self) -> JsonView {
        json_view(*self)
    }
}

/// The views of the values of `items`, in order.
pub open spec fn json_views(items: Seq<JsonValue>) -> Seq<JsonView> {
    Seq::new(items.len(), |i: int| items[i]@)
}

/// The views of the fields of `fields`, in order.
pub open spec fn field_views(fields: Seq<(String, JsonValue)>) -> Seq<(Seq<char>, JsonView)> {
    Seq::new(fields.len(), |i: int| (fields[i].0@, fields[i].1@))
}

proof fn views_upto_is_prefix(items: Seq<JsonValue>, n: nat)
    requires
        n <= items.len(),
    ensures
        views_upto(items, n) == json_views(items).subrange(0, n as int),
    decreases n,
{
    if n > 0 {
        views_upto_is_prefix(items, (n - 1) as nat);
        assert(json_views(items).subrange(0, n as int) =~= json_views(items).subrange(
            0,
            n - 1,
        ).push(items[n - 1]@));
    } else {
        assert(json_views(items).subrange(0, 0) =~= Seq::<JsonView>::empty());
    }
}

proof fn fields_upto_is_prefix(fields: Seq<(String, JsonValue)>, n: nat)
    requires
        n <= fields.len(),
    ensures
        fields_upto(fields, n) == field_views(fields).subrange(0, n as int),
    decreases n,
{
    if n > 0 {
        fields_upto_is_prefix(fields, (n - 1) as nat);
        assert(field_views(fields).subrange(0, n as int) =~= field_views(fields).subrange(
            0,
            n - 1,
        ).push((fields[n - 1].0@, fields[n - 1].1@)));
    } else {
        assert(field_views(fields).subrange(0, 0) =~= Seq::<(Seq<char>, JsonView)>::empty());
    }
}

/// The view of an array is the array of its items' views.
pub proof fn array_view(items: Vec<JsonValue>)
    ensures
        JsonValue::Array(items)@ == JsonView::Array(json_views(items@)),
{
    views_upto_is_prefix(items@, items@.len());
    assert(json_views(items@).subrange(0, items@.len() as int) =~= json_views(items@));
}

/// The view of an object is the sequence of its fields' views.
pub proof fn object_view(fields: Vec<(String, JsonValue)>)
    ensures
        JsonValue::Object(fields)@ == JsonView::Object(field_views(fields@)),
{
    fields_upto_is_prefix(fields@, fields@.len());
    assert(field_views(fields@).subrange(0, fields@.len() as int) =~= field_views(fields@));
}

/// The value of the first field of `fields` that is named `key`.
pub open spec fn field_of(fields: Seq<(Seq<char>, JsonView)>, key: Seq<char>) -> Option<JsonView>
    decreases fields.len(),
{
    if fields.len() == 0 {
        None
    } else if fields[0].0 == key {
        Some(fields[0].1)
    } else {
        field_of(fields.drop_first(), key)
    }
}

/// The field `key` of an object; `None` for anything else or where the field is missing.
pub open spec fn member(v: JsonView, key: Seq<char>) -> Option<JsonView> {
    match v {
        JsonView::Object(fields) => field_of(fields, key),
        _ => None,
    }
}

/// The text of a text value.
pub open spec fn text_of(v: JsonView) -> Option<Seq<char>> {
    match v {
        JsonView::Text(s) => Some(s),
        _ => None,
    }
}

/// `Value` of serde_json: an untyped value as the JSON writer takes it.
/// Nothing of its inside is known here.
#[verifier::external_type_specification]
#[verifier::external_body]
pub struct ExValue(Value);

/// The compact JSON text of a value, as the JSON writer gives it; none where
/// the writer fails.
pub uninterp spec fn json_text(v: JsonView) -> Option<Seq<char>>;

/// Builds the `Value` of serde_json that holds what `v` holds, variant for
/// variant. A number that is kept as text is read back by `Number::from_str`,
/// and is null where it cannot be read.
#[verifier::external_body]
fn serde_value(v: &JsonValue) -> (r: Value) {
    match v {
        JsonValue::Null => Value::Null,
        JsonValue::Bool(b) => Value::Bool(*b),
        JsonValue::Number(JsonNumber::Unsigned(n)) => Value::from(*n),
        JsonValue::Number(JsonNumber::Negative(n)) => Value::from(*n),
        JsonValue::Number(JsonNumber::Real(t)) => {
            t.parse().map(Value::Number).unwrap_or(Value::Null)
        },
        JsonValue::Text(s) => Value::String(s.clone()),
        JsonValue::Array(items) => Value::Array(items.iter().map(serde_value).collect()),
        JsonValue::Object(fields) => Value::Object(
            fields.iter().map(|(k, x)| (k.clone(), serde_value(x))).collect(),
        ),
    }
}

/// `serde_json::to_string` on the value that `serde_value` builds: the compact
/// JSON text, or none where the writer fails.
#[verifier::external_body]
fn write_json(v: &JsonValue) -> (r: Option<String>)
    ensures
        match r {
            Some(t) => json_text(v@) == Some(t@),
            None => json_text(v@) is None,
        },
{
    serde_json::to_string(&serde_value(v)).ok()
}

/// The text of a value in a message: its compact JSON text, or a note where
/// there is none.
pub open spec fn shown(v: JsonView) -> Seq<char> {
    match json_text(v) {
        Some(t) => t,
        None => "invalid JSON"@,
    }
}

impl JsonValue {
    /// A copy of the value.
    pub fn duplicate(&self) -> (r: JsonValue)
        ensures
            r@ == self@,
        decreases self,
    {
        match self {
            JsonValue::Null => JsonValue::Null,
            JsonValue::Bool(b) => JsonValue::Bool(*b),
            JsonValue::Number(n) => JsonValue::Number(n.clone()),
            JsonValue::Text(s) => JsonValue::Text(s.clone()),
            JsonValue::Array(items) => {
                let mut out: Vec<JsonValue> = Vec::new();
                let mut i: usize = 0;
                while i < items.len()
                    invariant
                        self is Array,
                        self->Array_0 == *items,
                        i <= items.len(),
                        out.len() == i,
                        forall|k: int| 0 <= k < i ==> (#[trigger] out@[k])@ == items@[k]@,
                    decreases items.len() - i,
                {
                    out.push(items[i].duplicate());
                    i += 1;
                }
                proof {
                    array_view(out);
                    array_view(*items);
                    assert(json_views(out@) =~= json_views(items@));
                }
                JsonValue::Array(out)
            },
            JsonValue::Object(fields) => {
                let mut out: Vec<(String, JsonValue)> = Vec::new();
                let mut i: usize = 0;
                while i < fields.len()
                    invariant
                        self is Object,
                        self->Object_0 == *fields,
                        i <= fields.len(),
                        out.len() == i,
                        forall|k: int|
                            0 <= k < i ==> (#[trigger] out@[k]).0@ == fields@[k].0@ && out@[k].1@
                                == fields@[k].1@,
                    decreases fields.len() - i,
                {
                    let name = fields[i].0.clone();
                    let value = fields[i].1.duplicate();
                    out.push((name, value));
                    i += 1;
                }
                proof {
                    object_view(out);
                    object_view(*fields);
                    assert(field_views(out@) =~= field_views(fields@));
                }
                JsonValue::Object(out)
            },
        }
    }

    /// The text, if the value is text.
    pub fn as_str(&self) -> (r: Option<&str>)
        ensures
            r is Some <==> self@ is Text,
            r is Some ==> r->0@ == self@->Text_0,
    {
        match self {
            JsonValue::Text(s) => Some(s.as_str()),
            _ => None,
        }
    }

    /// The boolean, if the value is one.
    pub fn as_bool(&self) -> (r: Option<bool>)
        ensures
            r is Some <==> self@ is Bool,
            r is Some ==> r->0 == self@->Bool_0,
    {
        match self {
            JsonValue::Bool(b) => Some(*b),
            _ => None,
        }
    }

    /// The first field named `key`, if the value is an object that has one.
    #[verifier::loop_isolation(false)]
    pub fn get(&self, key: &str) -> (r: Option<&JsonValue>)
        ensures
            r is Some <==> member(self@, key@) is Some,
            r is Some ==> r->0@ == member(self@, key@)->0,
    {
        match self {
            JsonValue::Object(fields) => {
                let wanted = to_chars(key);
                let mut i: usize = 0;
                proof {
                    object_view(*fields);
                    assert(field_views(fields@).subrange(0, fields.len() as int) == field_views(
                        fields@,
                    ));
                }
                while i < fields.len()
                    invariant
                        i <= fields.len(),
                        wanted@ == key@,
                        field_of(field_views(fields@), key@) == field_of(
                            field_views(fields@).subrange(i as int, fields.len() as int),
                            key@,
                        ),
                    decreases fields.len() - i,
                {
                    let name = to_chars(fields[i].0.as_str());
                    proof {
                        let rest = field_views(fields@).subrange(i as int, fields.len() as int);
                        assert(rest[0] == (fields@[i as int].0@, fields@[i as int].1@));
                        assert(rest.drop_first() == field_views(fields@).subrange(
                            i + 1,
                            fields.len() as int,
                        ));
                    }
                    if chars_eq(&name, &wanted) {
                        return Some(&fields[i].1);
                    }
                    i += 1;
                }
                None
            },
            _ => None,
        }
    }

    /// The value as compact JSON text, for a message.
    pub fn to_text(&self) -> (r: String)
        ensures
            r@ == shown(self@),
    {
        match write_json(self) {
            Some(t) => t,
            None => String::from_str("invalid JSON"),
        }
    }
}

} // verus!
