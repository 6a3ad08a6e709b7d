//! Decoding typed values out of JSON documents.
//!
//! Every type of the protocol says, as a spec function, which documents
//! decode to which of its values, and for every other document why it does
//! not decode; the executable decoder is held to that. Members that a type
//! does not know are passed over.
//!
//! A type with many members is decoded member by member, and its spec
//! function is made of one spec function for each member. Those (`required`,
//! `optional`, `flag` and the like) are opaque, so that a proof about a type
//! is not burdened with what each member looks like; a proof that looks into
//! a member reveals the one that it needs.

use crate::error::ShapeError;
use crate::json::{lemma_field_decreases, Binary64, Json, JsonValue};
use crate::text::{result_view, str_eq};
use vstd::prelude::*;

verus! {

/// A type whose values can be read from a JSON document.
pub trait FromJson: Sized + DeepView {
    /// The value that a document decodes to, or the reason why it is none.
    spec fn decoded(j: JsonValue) -> Result<Self::V, ShapeError>;

    fn from_json(j: &Json) -> (r: Result<Self, ShapeError>)
        ensures
            result_view(r) == Self::decoded(j@),
    ;
}

/// What a reading of a primitive gives: the value, or a mismatch of type.
pub open spec fn typed<V>(reading: Option<V>) -> Result<V, ShapeError> {
    match reading {
        Some(v) => Ok(v),
        None => Err(ShapeError::TypeMismatch),
    }
}

/// What a lookup in a closed set gives: the value, or an unknown variant.
pub open spec fn known<V>(found: Option<V>) -> Result<V, ShapeError> {
    match found {
        Some(v) => Ok(v),
        None => Err(ShapeError::UnknownVariant),
    }
}

/// The failure of a part, as the failure of the whole.
pub open spec fn failed<A, B>(part: Result<A, ShapeError>) -> Result<B, ShapeError>
    recommends
        part is Err,
{
    Err(part->Err_0)
}

impl FromJson for bool {
    open spec fn decoded(j: JsonValue) -> Result<bool, ShapeError> {
        typed(j.as_bool())
    }

    fn from_json(j: &Json) -> (r: Result<bool, ShapeError>) {
        match j.as_bool() {
            Some(v) => Ok(v),
            None => Err(ShapeError::TypeMismatch),
        }
    }
}

impl FromJson for u64 {
    open spec fn decoded(j: JsonValue) -> Result<u64, ShapeError> {
        typed(j.as_u64())
    }

    fn from_json(j: &Json) -> (r: Result<u64, ShapeError>) {
        match j.as_u64() {
            Some(v) => Ok(v),
            None => Err(ShapeError::TypeMismatch),
        }
    }
}

impl FromJson for i64 {
    open spec fn decoded(j: JsonValue) -> Result<i64, ShapeError> {
        typed(j.as_i64())
    }

    fn from_json(j: &Json) -> (r: Result<i64, ShapeError>) {
        match j.as_i64() {
            Some(v) => Ok(v),
            None => Err(ShapeError::TypeMismatch),
        }
    }
}

impl DeepView for Binary64 {
    type V = Binary64;

    open spec fn deep_view(&self) -> Binary64 {
        *self
    }
}

impl FromJson for Binary64 {
    open spec fn decoded(j: JsonValue) -> Result<Binary64, ShapeError> {
        typed(j.as_real())
    }

    fn from_json(j: &Json) -> (r: Result<Binary64, ShapeError>) {
        match j.as_real() {
            Some(v) => Ok(v),
            None => Err(ShapeError::TypeMismatch),
        }
    }
}

impl FromJson for String {
    open spec fn decoded(j: JsonValue) -> Result<Seq<char>, ShapeError> {
        typed(j.as_str())
    }

    fn from_json(j: &Json) -> (r: Result<String, ShapeError>) {
        match j.as_str() {
            Some(s) => Ok(s.to_owned()),
            None => Err(ShapeError::TypeMismatch),
        }
    }
}

/// A member that has to be there. Where it is `null` it is there, and of
/// the wrong type.
#[verifier::opaque]
pub open spec fn required<T: FromJson>(j: JsonValue, key: Seq<char>) -> Result<T::V, ShapeError> {
    match j.field(key) {
        Some(v) => T::decoded(v),
        None => Err(ShapeError::MissingField),
    }
}

/// An object of which one member is asked for.
pub open spec fn only<T: FromJson>(j: JsonValue, key: Seq<char>) -> Result<T::V, ShapeError> {
    if j is Object {
        required::<T>(j, key)
    } else {
        Err(ShapeError::TypeMismatch)
    }
}

/// A member that may be missing or `null`, and has to decode where it is
/// neither.
#[verifier::opaque]
pub open spec fn optional<T: FromJson>(j: JsonValue, key: Seq<char>) -> Result<
    Option<T::V>,
    ShapeError,
> {
    if j.member(key) is Null {
        Ok(None)
    } else {
        match T::decoded(j.member(key)) {
            Ok(v) => Ok(Some(v)),
            Err(e) => Err(e),
        }
    }
}

/// A flag that is `false` where the member is missing, and has to be a
/// boolean where it is there.
#[verifier::opaque]
pub open spec fn flag(j: JsonValue, key: Seq<char>) -> Result<bool, ShapeError> {
    match j.field(key) {
        Some(v) => bool::decoded(v),
        None => Ok(false),
    }
}

/// What the elements of an array decode to, in their order; where some do
/// not decode, the cause of the first of them.
pub open spec fn each<T: FromJson>(items: Seq<JsonValue>) -> Result<Seq<T::V>, ShapeError>
    decreases items.len(),
{
    if items.len() == 0 {
        Ok(Seq::empty())
    } else {
        match each::<T>(items.drop_last()) {
            Ok(before) => match T::decoded(items.last()) {
                Ok(v) => Ok(before.push(v)),
                Err(e) => Err(e),
            },
            Err(e) => Err(e),
        }
    }
}

/// An array, each of whose elements has to decode.
pub open spec fn list<T: FromJson>(j: JsonValue) -> Result<Seq<T::V>, ShapeError> {
    match j {
        JsonValue::Array(items) => each::<T>(items),
        _ => Err(ShapeError::TypeMismatch),
    }
}

#[verifier::opaque]
pub open spec fn required_list<T: FromJson>(j: JsonValue, key: Seq<char>) -> Result<
    Seq<T::V>,
    ShapeError,
> {
    match j.field(key) {
        Some(v) => list::<T>(v),
        None => Err(ShapeError::MissingField),
    }
}

#[verifier::opaque]
pub open spec fn optional_list<T: FromJson>(j: JsonValue, key: Seq<char>) -> Result<
    Option<Seq<T::V>>,
    ShapeError,
> {
    if j.member(key) is Null {
        Ok(None)
    } else {
        match list::<T>(j.member(key)) {
            Ok(v) => Ok(Some(v)),
            Err(e) => Err(e),
        }
    }
}

/// A list decodes exactly when each element does, and then place by place.
pub proof fn lemma_each<T: FromJson>(items: Seq<JsonValue>)
    ensures
        each::<T>(items) is Ok <==> forall|i: int|
            0 <= i < items.len() ==> T::decoded(#[trigger] items[i]) is Ok,
        each::<T>(items) matches Ok(values) ==> values.len() == items.len() && forall|i: int|
            0 <= i < items.len() ==> T::decoded(#[trigger] items[i]) == Ok::<T::V, ShapeError>(
                values[i],
            ),
        each::<T>(items) matches Err(e) ==> exists|i: int|
            0 <= i < items.len() && T::decoded(#[trigger] items[i]) == Err::<T::V, ShapeError>(e)
                && forall|k: int| 0 <= k < i ==> T::decoded(#[trigger] items[k]) is Ok,
    decreases items.len(),
{
    if items.len() > 0 {
        let head = items.drop_last();
        lemma_each::<T>(head);
        assert(forall|i: int| 0 <= i < head.len() ==> head[i] == items[i]);
        if each::<T>(head) is Err {
            let e = each::<T>(head)->Err_0;
            let i = choose|i: int|
                0 <= i < head.len() && T::decoded(#[trigger] head[i]) == Err::<T::V, ShapeError>(e)
                    && forall|k: int| 0 <= k < i ==> T::decoded(#[trigger] head[k]) is Ok;
            assert(forall|k: int| 0 <= k < i ==> T::decoded(#[trigger] items[k]) is Ok);
        }
    }
}

/// The member of `j` called `key`, or `Null`.
pub fn member<'a>(j: &'a Json, key: &str) -> (r: &'a Json)
    ensures
        r@ == j@.member(key@),
{
    match j.get(key) {
        Some(v) => v,
        None => &Json::Null,
    }
}

pub fn req<T: FromJson>(j: &Json, key: &str) -> (r: Result<T, ShapeError>)
    ensures
        result_view(r) == required::<T>(j@, key@),
{
    reveal(required);
    match j.get(key) {
        Some(v) => T::from_json(v),
        None => Err(ShapeError::MissingField),
    }
}

pub fn only_at<T: FromJson>(j: &Json, key: &str) -> (r: Result<T, ShapeError>)
    ensures
        result_view(r) == only::<T>(j@, key@),
{
    if j.is_object() {
        req::<T>(j, key)
    } else {
        Err(ShapeError::TypeMismatch)
    }
}

pub fn opt<T: FromJson>(j: &Json, key: &str) -> (r: Result<Option<T>, ShapeError>)
    ensures
        result_view(r) == optional::<T>(j@, key@),
{
    reveal(optional);
    let v = member(j, key);
    if v.is_null() {
        Ok(None)
    } else {
        match T::from_json(v) {
            Ok(t) => Ok(Some(t)),
            Err(e) => Err(e),
        }
    }
}

pub fn flag_at(j: &Json, key: &str) -> (r: Result<bool, ShapeError>)
    ensures
        r == flag(j@, key@),
{
    reveal(flag);
    match j.get(key) {
        Some(v) => bool::from_json(v),
        None => Ok(false),
    }
}

pub fn list_from_json<T: FromJson>(j: &Json) -> (r: Result<Vec<T>, ShapeError>)
    ensures
        result_view(r) == list::<T>(j@),
{
    let items = match j.as_array() {
        Some(items) => items,
        None => {
            return Err(ShapeError::TypeMismatch);
        },
    };
    let ghost model = items.deep_view();
    let mut out: Vec<T> = Vec::new();
    let mut i: usize = 0;
    assert(out.deep_view() =~= Seq::<T::V>::empty());
    while i < items.len()
        invariant
            i <= items.len(),
            model == items.deep_view(),
            j@ == JsonValue::Array(model),
            each::<T>(model.take(i as int)) == Ok::<Seq<T::V>, ShapeError>(out.deep_view()),
        decreases items.len() - i,
    {
        proof {
            let next = model.take(i + 1);
            assert(next.drop_last() =~= model.take(i as int));
            lemma_each_stops::<T>(model, i + 1);
        }
        match T::from_json(&items[i]) {
            Ok(t) => {
                let ghost before = out.deep_view();
                out.push(t);
                assert(out.deep_view() =~= before.push(t.deep_view()));
            },
            Err(e) => {
                return Err(e);
            },
        }
        i += 1;
    }
    assert(model.take(i as int) =~= model);
    Ok(out)
}

/// A list that fails at a prefix fails in the same way as a whole.
pub proof fn lemma_each_stops<T: FromJson>(items: Seq<JsonValue>, n: int)
    requires
        0 <= n <= items.len(),
    ensures
        each::<T>(items.take(n)) matches Err(e) ==> each::<T>(items) == Err::<
            Seq<T::V>,
            ShapeError,
        >(e),
    decreases items.len() - n,
{
    if n == items.len() {
        assert(items.take(n) =~= items);
    } else {
        lemma_each_stops::<T>(items, n + 1);
        assert(items.take(n + 1).drop_last() =~= items.take(n));
    }
}

pub fn req_list<T: FromJson>(j: &Json, key: &str) -> (r: Result<Vec<T>, ShapeError>)
    ensures
        result_view(r) == required_list::<T>(j@, key@),
{
    reveal(required_list);
    match j.get(key) {
        Some(v) => list_from_json::<T>(v),
        None => Err(ShapeError::MissingField),
    }
}

pub fn opt_list<T: FromJson>(j: &Json, key: &str) -> (r: Result<Option<Vec<T>>, ShapeError>)
    ensures
        result_view(r) == optional_list::<T>(j@, key@),
{
    reveal(optional_list);
    let v = member(j, key);
    if v.is_null() {
        Ok(None)
    } else {
        match list_from_json::<T>(v) {
            Ok(t) => Ok(Some(t)),
            Err(e) => Err(e),
        }
    }
}

/// The elements of the array that is the member `key` of `j` are smaller
/// values than `j`.
pub proof fn lemma_elements_decrease(j: JsonValue, key: Seq<char>)
    ensures
        forall|i: int|
            j.field(key) is Some && j.field(key).unwrap() is Array && 0 <= i < j.field(
                key,
            ).unwrap()->Array_0.len() ==> decreases_to!(j => #[trigger] j.field(
                key,
            ).unwrap()->Array_0[i]),
{
    lemma_field_decreases(j, key);
    if j.field(key) is Some && j.field(key).unwrap() is Array {
        let v = j.field(key).unwrap();
        let items = v->Array_0;
        assert(forall|i: int| 0 <= i < items.len() ==> decreases_to!(j => #[trigger] items[i]));
    }
}

/// The strings of a list without repetitions: each in the place where it
/// comes first.
pub open spec fn distinct(names: Seq<Seq<char>>) -> Seq<Seq<char>>
    decreases names.len(),
{
    if names.len() == 0 {
        Seq::empty()
    } else {
        let before = distinct(names.drop_last());
        if before.contains(names.last()) {
            before
        } else {
            before.push(names.last())
        }
    }
}

/// `distinct` keeps exactly the strings of the list, each once.
pub proof fn lemma_distinct(names: Seq<Seq<char>>)
    ensures
        distinct(names).no_duplicates(),
        forall|s: Seq<char>| distinct(names).contains(s) <==> names.contains(s),
    decreases names.len(),
{
    if names.len() > 0 {
        let head = names.drop_last();
        let before = distinct(head);
        lemma_distinct(head);
        assert forall|s: Seq<char>| distinct(names).contains(s) <==> names.contains(s) by {
            if names.contains(s) {
                let i = choose|i: int| 0 <= i < names.len() && names[i] == s;
                if i < names.len() - 1 {
                    assert(head[i] == s);
                    assert(head.contains(s));
                    if !before.contains(names.last()) {
                        let k = choose|k: int| 0 <= k < before.len() && before[k] == s;
                        assert(before.push(names.last())[k] == s);
                    }
                } else {
                    if !before.contains(names.last()) {
                        assert(before.push(names.last())[before.len() as int] == s);
                    }
                }
            }
            if distinct(names).contains(s) {
                let k = choose|k: int| 0 <= k < distinct(names).len() && distinct(names)[k] == s;
                if k < before.len() {
                    assert(head.contains(s));
                }
            }
        }
    }
}

/// Whether `names` holds `name`.
pub fn holds(names: &Vec<String>, name: &str) -> (r: bool)
    ensures
        r == names.deep_view().contains(name@),
{
    let mut i: usize = 0;
    while i < names.len()
        invariant
            i <= names.len(),
            forall|k: int| 0 <= k < i ==> names.deep_view()[k] != name@,
        decreases names.len() - i,
    {
        if str_eq(names[i].as_str(), name) {
            assert(names.deep_view()[i as int] == name@);
            return true;
        }
        i += 1;
    }
    false
}

/// A set of strings, written as an array in which a string may come more
/// than once.
pub open spec fn string_set(j: JsonValue) -> Result<Seq<Seq<char>>, ShapeError> {
    match list::<String>(j) {
        Ok(names) => Ok(distinct(names)),
        Err(e) => Err(e),
    }
}

#[verifier::opaque]
pub open spec fn optional_string_set(j: JsonValue, key: Seq<char>) -> Result<
    Option<Seq<Seq<char>>>,
    ShapeError,
> {
    if j.member(key) is Null {
        Ok(None)
    } else {
        match string_set(j.member(key)) {
            Ok(v) => Ok(Some(v)),
            Err(e) => Err(e),
        }
    }
}

pub fn string_set_from_json(j: &Json) -> (r: Result<Vec<String>, ShapeError>)
    ensures
        result_view(r) == string_set(j@),
        r matches Ok(names) ==> names.deep_view().no_duplicates(),
{
    let names = list_from_json::<String>(j)?;
    let ghost model = names.deep_view();
    let mut out: Vec<String> = Vec::new();
    let mut i: usize = 0;
    while i < names.len()
        invariant
            i <= names.len(),
            model == names.deep_view(),
            out.deep_view() == distinct(model.take(i as int)),
        decreases names.len() - i,
    {
        proof {
            let next = model.take(i + 1);
            assert(next.drop_last() =~= model.take(i as int));
        }
        if !holds(&out, names[i].as_str()) {
            out.push(names[i].clone());
        }
        i += 1;
    }
    proof {
        assert(model.take(names@.len() as int) =~= model);
        lemma_distinct(model);
    }
    Ok(out)
}

pub fn opt_string_set(j: &Json, key: &str) -> (r: Result<Option<Vec<String>>, ShapeError>)
    ensures
        result_view(r) == optional_string_set(j@, key@),
{
    reveal(optional_string_set);
    let v = member(j, key);
    if v.is_null() {
        Ok(None)
    } else {
        match string_set_from_json(v) {
            Ok(t) => Ok(Some(t)),
            Err(e) => Err(e),
        }
    }
}

} // verus!
