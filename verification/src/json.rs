//! JSON documents, as far as decoding a response reads them.
//!
//! Parsing is left to `serde_json`. A parsed document stays a `serde_json::Value`; what it
//! holds is modelled by [`Json`], and the functions here are the only ones that look inside
//! a value. Each of them is trusted: its contract restates what the `serde_json` method it
//! calls is documented to do.

use vstd::prelude::*;

verus! {

/// `serde_json::Value`, a parsed JSON value. Nothing of its inside is known here.
#[verifier::external_type_specification]
#[verifier::external_body]
pub struct ExValue(serde_json::Value);

/// `serde_json::Error`, why a text is no JSON document. Nothing of its inside is known here.
#[verifier::external_type_specification]
#[verifier::external_body]
pub struct ExError(serde_json::Error);

/// What a JSON value holds.
pub ghost enum Json {
    Null,
    Bool(bool),
    /// A number. The integer is there when `serde_json` holds the number as a `u64` or an
    /// `i64`, and missing when it holds it as a float.
    Number(Option<int>),
    Text(Seq<char>),
    Array(Seq<Json>),
    Object(Map<Seq<char>, Json>),
}

/// What `value` holds.
pub uninterp spec fn json_of(value: serde_json::Value) -> Json;

/// What parsing `text` as one JSON document gives.
pub uninterp spec fn parsed(text: Seq<char>) -> Result<serde_json::Value, serde_json::Error>;

/// What each value of `list` holds.
pub open spec fn models(list: Seq<serde_json::Value>) -> Seq<Json> {
    Seq::new(list.len(), |i: int| json_of(list[i]))
}

/// `list` names every member of `members` once, each with the value stored under its name.
pub open spec fn lists(
    list: Seq<(&str, &serde_json::Value)>,
    members: Map<Seq<char>, Json>,
) -> bool {
    &&& forall|i: int|
        0 <= i < list.len() ==> members.contains_key(#[trigger] list[i].0@) && json_of(*list[i].1)
            == members[list[i].0@]
    &&& forall|i: int, j: int|
        0 <= i < j < list.len() ==> #[trigger] list[i].0@ != #[trigger] list[j].0@
    &&& forall|name: Seq<char>| #[trigger]
        members.contains_key(name) ==> exists|i: int| 0 <= i < list.len() && list[i].0@ == name
}

/// Parses `text` as one JSON document: `serde_json::from_str` at the type
/// `serde_json::Value`. The same text always gives the same value or the same error.
#[verifier::external_body]
pub(crate) fn parse(text: &str) -> (document: Result<serde_json::Value, serde_json::Error>)
    ensures
        document == parsed(text@),
{
    serde_json::from_str::<serde_json::Value>(text)
}

/// The member called `name`: `serde_json::Value::get` with a string index. It is there
/// exactly when `value` is an object that has a member of that name.
#[verifier::external_body]
pub(crate) fn member<'a>(value: &'a serde_json::Value, name: &str) -> (found: Option<
    &'a serde_json::Value,
>)
    ensures
        match found {
            Some(inner) => json_of(*value) is Object && json_of(*value)->Object_0.contains_key(
                name@,
            ) && json_of(*inner) == json_of(*value)->Object_0[name@],
            None => !(json_of(*value) is Object && json_of(*value)->Object_0.contains_key(name@)),
        },
{
    value.get(name)
}

/// Whether `value` is an object: `serde_json::Value::is_object`.
#[verifier::external_body]
pub(crate) fn is_object(value: &serde_json::Value) -> (object: bool)
    ensures
        object == (json_of(*value) is Object),
{
    value.is_object()
}

/// Whether `value` is `null`: `serde_json::Value::is_null`.
#[verifier::external_body]
pub(crate) fn is_null(value: &serde_json::Value) -> (null: bool)
    ensures
        null == (json_of(*value) is Null),
{
    value.is_null()
}

/// The string in `value`: `serde_json::Value::as_str`. It is there exactly when `value` is a
/// string.
#[verifier::external_body]
pub(crate) fn as_text(value: &serde_json::Value) -> (text: Option<&str>)
    ensures
        match text {
            Some(t) => json_of(*value) == Json::Text(t@),
            None => !(json_of(*value) is Text),
        },
{
    value.as_str()
}

/// The boolean in `value`: `serde_json::Value::as_bool`. It is there exactly when `value` is
/// `true` or `false`.
#[verifier::external_body]
pub(crate) fn as_flag(value: &serde_json::Value) -> (flag: Option<bool>)
    ensures
        match flag {
            Some(b) => json_of(*value) == Json::Bool(b),
            None => !(json_of(*value) is Bool),
        },
{
    value.as_bool()
}

/// The integer in `value` as a `u64`: `serde_json::Value::as_u64`. It is there exactly when
/// `value` is a number stored as an integer that is not negative.
#[verifier::external_body]
pub(crate) fn as_count(value: &serde_json::Value) -> (count: Option<u64>)
    ensures
        match count {
            Some(n) => json_of(*value) == Json::Number(Some(n as int)),
            None => !(json_of(*value) matches Json::Number(Some(n)) && n >= 0),
        },
{
    value.as_u64()
}

/// The elements of `value`, in their order: `serde_json::Value::as_array`. They are there
/// exactly when `value` is an array.
#[verifier::external_body]
pub(crate) fn items(value: &serde_json::Value) -> (list: Option<&Vec<serde_json::Value>>)
    ensures
        match list {
            Some(elements) => json_of(*value) == Json::Array(models(elements@)),
            None => !(json_of(*value) is Array),
        },
{
    value.as_array()
}

/// The members of `value`, each once: `serde_json::Value::as_object`, then
/// `serde_json::Map::iter`. They are there exactly when `value` is an object. Nothing is said
/// of their order.
#[verifier::external_body]
pub(crate) fn entries(value: &serde_json::Value) -> (list: Option<
    Vec<(&str, &serde_json::Value)>,
>)
    ensures
        match list {
            Some(members) => json_of(*value) is Object && lists(
                members@,
                json_of(*value)->Object_0,
            ),
            None => !(json_of(*value) is Object),
        },
{
    value.as_object().map(
        |object| object.iter().map(|(name, inner)| (name.as_str(), inner)).collect(),
    )
}

} // verus!
