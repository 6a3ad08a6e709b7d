//! JSON documents as plain data.
//!
//! Parsing is done by `serde_json`; everything that reads a parsed document
//! works on [`Json`], whose mathematical model is [`JsonValue`].

use crate::text::str_eq;
use vstd::prelude::*;

verus! {

/// The bit pattern of an IEEE 754 binary64 number.
///
/// Fractional quantities of the protocol are carried through as their bits:
/// `bits` is what `to_bits` gives for the number and what `from_bits` takes.
/// Two values are equal where their bits are, so zero and minus zero are
/// two values.
#[derive(Clone, Copy, Debug, PartialEq, Eq, Hash, Structural)]
pub struct Binary64 {
    pub bits: u64,
}

/// A JSON number, as the three readings that a decoder may ask for.
///
/// A number written with a fraction or an exponent has the third reading
/// only, also where its value is whole.
#[derive(Clone, Copy, Debug, PartialEq, Eq, Structural)]
pub struct JsonNumber {
    /// The number as an unsigned integer, where it is written as an integer
    /// from 0 to 2^64 - 1.
    pub unsigned: Option<u64>,
    /// The number as a signed integer, where it is written as an integer
    /// from -2^63 to 2^63 - 1.
    pub signed: Option<i64>,
    /// The number as a binary64, rounded where it has to be.
    pub real: Option<Binary64>,
}

/// A JSON document.
///
/// An object keeps its members as a list of name and value; a name is looked
/// up from the front, so of two members with one name the first is seen.
#[derive(Debug)]
pub enum Json {
    Null,
    Bool(bool),
    Number(JsonNumber),
    String(String),
    Array(Vec<Json>),
    Object(Vec<(String, Json)>),
}

/// The mathematical model of a [`Json`] document.
pub enum JsonValue {
    Null,
    Bool(bool),
    Number(JsonNumber),
    String(Seq<char>),
    Array(Seq<JsonValue>),
    Object(Seq<(Seq<char>, JsonValue)>),
}

/// The document that a [`Json`] value stands for.
pub open spec fn model_of(j: Json) -> JsonValue
    decreases j,
{
    match j {
        Json::Null => JsonValue::Null,
        Json::Bool(b) => JsonValue::Bool(b),
        Json::Number(n) => JsonValue::Number(n),
        Json::String(s) => JsonValue::String(s@),
        Json::Array(items) => JsonValue::Array(
            Seq::new(
                items@.len(),
                |i: int|
                    if 0 <= i < items@.len() {
                        model_of(items@[i])
                    } else {
                        JsonValue::Null
                    },
            ),
        ),
        Json::Object(members) => JsonValue::Object(
            Seq::new(
                members@.len(),
                |i: int|
                    if 0 <= i < members@.len() {
                        (members@[i].0@, model_of(members@[i].1))
                    } else {
                        (Seq::empty(), JsonValue::Null)
                    },
            ),
        ),
    }
}

impl View for Json {
    type V = JsonValue;

    open spec fn view(&self) -> JsonValue {
        model_of(*self)
    }
}

impl DeepView for Json {
    type V = JsonValue;

    open spec fn deep_view(&self) -> JsonValue {
        self@
    }
}

/// The value of the first member called `key` in a member list.
pub open spec fn lookup(members: Seq<(Seq<char>, JsonValue)>, key: Seq<char>) -> Option<JsonValue>
    decreases members.len(),
{
    if members.len() == 0 {
        None
    } else if members[0].0 == key {
        Some(members[0].1)
    } else {
        lookup(members.drop_first(), key)
    }
}

impl JsonValue {
    /// The member called `key`, if this is an object that has one.
    pub open spec fn field(self, key: Seq<char>) -> Option<JsonValue> {
        match self {
            JsonValue::Object(members) => lookup(members, key),
            _ => None,
        }
    }

    /// The member called `key`, or `Null` where there is none.
    pub open spec fn member(self, key: Seq<char>) -> JsonValue {
        match self.field(key) {
            Some(v) => v,
            None => JsonValue::Null,
        }
    }

    pub open spec fn as_bool(self) -> Option<bool> {
        match self {
            JsonValue::Bool(b) => Some(b),
            _ => None,
        }
    }

    pub open spec fn as_u64(self) -> Option<u64> {
        match self {
            JsonValue::Number(n) => n.unsigned,
            _ => None,
        }
    }

    pub open spec fn as_i64(self) -> Option<i64> {
        match self {
            JsonValue::Number(n) => n.signed,
            _ => None,
        }
    }

    pub open spec fn as_real(self) -> Option<Binary64> {
        match self {
            JsonValue::Number(n) => n.real,
            _ => None,
        }
    }

    pub open spec fn as_str(self) -> Option<Seq<char>> {
        match self {
            JsonValue::String(s) => Some(s),
            _ => None,
        }
    }

    pub open spec fn as_array(self) -> Option<Seq<JsonValue>> {
        match self {
            JsonValue::Array(items) => Some(items),
            _ => None,
        }
    }
}

/// A lookup finds the value of the first member of the name, and nothing
/// where no member has the name.
pub proof fn lemma_lookup_first(members: Seq<(Seq<char>, JsonValue)>, key: Seq<char>)
    ensures
        lookup(members, key) is None <==> forall|i: int|
            0 <= i < members.len() ==> (#[trigger] members[i]).0 != key,
        lookup(members, key) matches Some(v) ==> exists|i: int|
            0 <= i < members.len() && (#[trigger] members[i]) == (key, v) && forall|k: int|
                0 <= k < i ==> (#[trigger] members[k]).0 != key,
    decreases members.len(),
{
    if members.len() != 0 {
        let rest = members.drop_first();
        lemma_lookup_first(rest, key);
        assert(forall|i: int| 0 <= i < rest.len() ==> rest[i] == members[i + 1]);
        if members[0].0 == key {
            assert(members[0] == (key, members[0].1));
        } else {
            if let Some(v) = lookup(rest, key) {
                let i = choose|i: int|
                    0 <= i < rest.len() && (#[trigger] rest[i]) == (key, v) && forall|k: int|
                        0 <= k < i ==> (#[trigger] rest[k]).0 != key;
                assert(members[i + 1] == (key, v));
                assert forall|k: int| 0 <= k < i + 1 implies (#[trigger] members[k]).0 != key by {
                    if k > 0 {
                        assert(rest[k - 1] == members[k]);
                    }
                }
            } else {
                assert forall|i: int| 0 <= i < members.len() implies (#[trigger] members[i]).0
                    != key by {
                    if i > 0 {
                        assert(rest[i - 1] == members[i]);
                    }
                }
            }
        }
    }
}

/// What a lookup finds is the value of one of the members.
pub proof fn lemma_lookup_decreases(members: Seq<(Seq<char>, JsonValue)>, key: Seq<char>)
    ensures
        lookup(members, key) matches Some(v) ==> exists|i: int|
            0 <= i < members.len() && (#[trigger] members[i]).1 == v,
    decreases members.len(),
{
    if members.len() != 0 && members[0].0 != key {
        let rest = members.drop_first();
        lemma_lookup_decreases(rest, key);
        if let Some(v) = lookup(rest, key) {
            let i = choose|i: int| 0 <= i < rest.len() && (#[trigger] rest[i]).1 == v;
            assert(members[i + 1] == rest[i]);
        }
    }
}

/// A member of an object is a smaller value than the object.
pub proof fn lemma_field_decreases(j: JsonValue, key: Seq<char>)
    ensures
        j.field(key) matches Some(v) ==> decreases_to!(j => v),
{
    if let JsonValue::Object(members) = j {
        lemma_lookup_decreases(members, key);
        if let Some(v) = lookup(members, key) {
            let i = choose|i: int| 0 <= i < members.len() && (#[trigger] members[i]).1 == v;
            assert(decreases_to!(j => j->Object_0));
            assert(decreases_to!(members => members[i]));
            assert(decreases_to!(members[i] => members[i].1));
        }
    }
}

#[verifier::external_type_specification]
#[verifier::external_body]
pub struct ExValue(serde_json::Value);

/// The document that a `serde_json::Value` holds.
pub uninterp spec fn value_json(v: serde_json::Value) -> JsonValue;

/// What `serde_json::from_slice` makes of a text: the document that it
/// reads, or `None` where it reports an error.
pub uninterp spec fn json_document(bytes: Seq<u8>) -> Option<JsonValue>;

/// `serde_json::from_slice`, read as a `serde_json::Value`.
///
/// Claims that the outcome is a function of the bytes alone: an error exactly
/// where `json_document` is `None`, and otherwise a value that holds the
/// document `json_document` names.
#[verifier::external_body]
fn value_from_slice(bytes: &[u8]) -> (r: Option<serde_json::Value>)
    ensures
        r is Some <==> json_document(bytes@) is Some,
        r matches Some(v) ==> json_document(bytes@) == Some(value_json(v)),
{
    serde_json::from_slice(bytes).ok()
}

/// One level of a `serde_json::Value`: its variant with the fields of that
/// variant, the nested values still unopened.
enum Layer<'a> {
    Null,
    Bool(bool),
    Number(JsonNumber),
    String(&'a str),
    Array(&'a Vec<serde_json::Value>),
    Object(Vec<(&'a String, &'a serde_json::Value)>),
}

spec fn layer_model(s: Layer<'_>) -> JsonValue {
    match s {
        Layer::Null => JsonValue::Null,
        Layer::Bool(b) => JsonValue::Bool(b),
        Layer::Number(n) => JsonValue::Number(n),
        Layer::String(t) => JsonValue::String(t@),
        Layer::Array(items) => JsonValue::Array(
            Seq::new(items@.len(), |i: int| value_json(items@[i])),
        ),
        Layer::Object(members) => JsonValue::Object(
            Seq::new(members@.len(), |i: int| (members@[i].0@, value_json(*members@[i].1))),
        ),
    }
}

/// Tells the variants of `serde_json::Value` apart and hands out the fields
/// of the one at hand. A number is read through `Number::as_u64`,
/// `Number::as_i64` and `Number::as_f64`; the members of an object come in
/// the order of `Map::iter`.
///
/// Claims that the document which the value holds is made of exactly these
/// fields, with the documents that the nested values hold in their places.
#[verifier::external_body]
fn open_value<'a>(v: &'a serde_json::Value) -> (s: Layer<'a>)
    ensures
        layer_model(s) == value_json(*v),
{
    match v {
        serde_json::Value::Null => Layer::Null,
        serde_json::Value::Bool(b) => Layer::Bool(*b),
        serde_json::Value::Number(n) => Layer::Number(
            JsonNumber {
                unsigned: n.as_u64(),
                signed: n.as_i64(),
                real: n.as_f64().map(|x| Binary64 { bits: x.to_bits() }),
            },
        ),
        serde_json::Value::String(s) => Layer::String(s.as_str()),
        serde_json::Value::Array(items) => Layer::Array(items),
        serde_json::Value::Object(members) => Layer::Object(members.iter().collect()),
    }
}

/// Copies the document out of a `serde_json::Value`.
fn lift(v: &serde_json::Value) -> (j: Json)
    ensures
        j@ == value_json(*v),
    decreases value_json(*v),
{
    match open_value(v) {
        Layer::Null => Json::Null,
        Layer::Bool(b) => Json::Bool(b),
        Layer::Number(n) => Json::Number(n),
        Layer::String(t) => Json::String(t.to_owned()),
        Layer::Array(items) => {
            let ghost model = Seq::new(items@.len(), |k: int| value_json(items@[k]));
            let mut out: Vec<Json> = Vec::new();
            let mut i: usize = 0;
            while i < items.len()
                invariant
                    i <= items.len(),
                    out@.len() == i,
                    forall|k: int| 0 <= k < i ==> (#[trigger] out@[k])@ == model[k],
                    model == Seq::new(items@.len(), |k: int| value_json(items@[k])),
                    value_json(*v) == JsonValue::Array(model),
                decreases items.len() - i,
            {
                proof {
                    assert(model[i as int] == value_json(items@[i as int]));
                    assert(decreases_to!(value_json(*v) => value_json(*v)->Array_0));
                }
                let child = lift(&items[i]);
                out.push(child);
                i += 1;
            }
            let j = Json::Array(out);
            assert(j@->Array_0 =~= model);
            j
        },
        Layer::Object(members) => {
            let ghost model = Seq::new(
                members@.len(),
                |k: int| (members@[k].0@, value_json(*members@[k].1)),
            );
            let mut out: Vec<(String, Json)> = Vec::new();
            let mut i: usize = 0;
            while i < members.len()
                invariant
                    i <= members.len(),
                    out@.len() == i,
                    forall|k: int|
                        0 <= k < i ==> (#[trigger] out@[k]).0@ == model[k].0 && out@[k].1@
                            == model[k].1,
                    model == Seq::new(
                        members@.len(),
                        |k: int| (members@[k].0@, value_json(*members@[k].1)),
                    ),
                    value_json(*v) == JsonValue::Object(model),
                decreases members.len() - i,
            {
                proof {
                    assert(model[i as int].1 == value_json(*members@[i as int].1));
                    assert(decreases_to!(value_json(*v) => value_json(*v)->Object_0));
                }
                let child = lift(members[i].1);
                out.push((members[i].0.clone(), child));
                i += 1;
            }
            let j = Json::Object(out);
            assert(j@->Object_0 =~= model);
            j
        },
    }
}

/// Reads a JSON text.
///
/// The result is the document that `serde_json` reads from `bytes`, and
/// `None` where it reports an error.
pub fn parse(bytes: &[u8]) -> (r: Option<Json>)
    ensures
        r.deep_view() == json_document(bytes@),
{
    match value_from_slice(bytes) {
        Some(v) => Some(lift(&v)),
        None => None,
    }
}

impl Json {
    /// The value of the first member called `key`.
    pub fn get(&self, key: &str) -> (r: Option<&Json>)
        ensures
            r.deep_view() == self@.field(key@),
    {
        match self {
            Json::Object(members) => {
                let ghost model = self@->Object_0;
                assert(model.skip(0) =~= model);
                let mut i: usize = 0;
                while i < members.len()
                    invariant
                        i <= members.len(),
                        self@ == JsonValue::Object(model),
                        model.len() == members@.len(),
                        forall|k: int|
                            0 <= k < model.len() ==> #[trigger] model[k] == (
                                members@[k].0@,
                                members@[k].1@,
                            ),
                        lookup(model, key@) == lookup(model.skip(i as int), key@),
                    decreases members.len() - i,
                {
                    let ghost rest = model.skip(i as int);
                    assert(rest.drop_first() =~= model.skip(i + 1));
                    if str_eq(members[i].0.as_str(), key) {
                        return Some(&members[i].1);
                    }
                    i += 1;
                }
                None
            },
            _ => None,
        }
    }

    pub fn is_object(&self) -> (r: bool)
        ensures
            r == (self@ is Object),
    {
        match self {
            Json::Object(_) => true,
            _ => false,
        }
    }

    pub fn is_null(&self) -> (r: bool)
        ensures
            r == (self@ is Null),
    {
        match self {
            Json::Null => true,
            _ => false,
        }
    }

    pub fn as_bool(&self) -> (r: Option<bool>)
        ensures
            r == self@.as_bool(),
    {
        match self {
            Json::Bool(b) => Some(*b),
            _ => None,
        }
    }

    pub fn as_u64(&self) -> (r: Option<u64>)
        ensures
            r == self@.as_u64(),
    {
        match self {
            Json::Number(n) => n.unsigned,
            _ => None,
        }
    }

    pub fn as_i64(&self) -> (r: Option<i64>)
        ensures
            r == self@.as_i64(),
    {
        match self {
            Json::Number(n) => n.signed,
            _ => None,
        }
    }

    pub fn as_real(&self) -> (r: Option<Binary64>)
        ensures
            r == self@.as_real(),
    {
        match self {
            Json::Number(n) => n.real,
            _ => None,
        }
    }

    pub fn as_str(&self) -> (r: Option<&str>)
        ensures
            r.deep_view() == self@.as_str(),
    {
        match self {
            Json::String(s) => Some(s.as_str()),
            _ => None,
        }
    }

    pub fn as_array(&self) -> (r: Option<&Vec<Json>>)
        ensures
            r.deep_view() == self@.as_array(),
    {
        match self {
            Json::Array(items) => {
                Some(items)
            },
            _ => None,
        }
    }
}

} // verus!
