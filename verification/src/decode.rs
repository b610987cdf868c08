//! Reading the members of a response object.
//!
//! A response is a JSON object. A member that is missing or `null` is absent; a member that
//! is present has to be of the type its field asks for, or the document does not fit.

use crate::json::{
    as_count, as_flag, as_text, entries, is_null, is_object, items, json_of, lists, member, models,
    parse, parsed, Json,
};
use vstd::prelude::*;

verus! {

/// Why a response body could not be decoded.
#[derive(Debug)]
pub enum DecodeError {
    /// The body is not one JSON document.
    Syntax(serde_json::Error),
    /// The body is JSON, but not of the shape of the response.
    Shape,
}

/// The member of `json` called `name`, if `json` is an object that has it.
pub open spec fn lookup(json: Json, name: Seq<char>) -> Option<Json> {
    match json {
        Json::Object(members) => if members.contains_key(name) {
            Some(members[name])
        } else {
            None
        },
        _ => None,
    }
}

/// The member of `json` called `name`, if it is there and not `null`.
pub open spec fn given(json: Json, name: Seq<char>) -> Option<Json> {
    match lookup(json, name) {
        Some(Json::Null) => None,
        found => found,
    }
}

/// An absent or a string member fits a text field.
pub open spec fn text_fits(json: Json, name: Seq<char>) -> bool {
    given(json, name) matches Some(inner) ==> inner is Text
}

/// The string of the member called `name`.
pub open spec fn text_of(json: Json, name: Seq<char>) -> Option<Seq<char>> {
    match given(json, name) {
        Some(Json::Text(text)) => Some(text),
        _ => None,
    }
}

/// An absent or a boolean member fits a flag field.
pub open spec fn flag_fits(json: Json, name: Seq<char>) -> bool {
    given(json, name) matches Some(inner) ==> inner is Bool
}

/// The boolean of the member called `name`.
pub open spec fn flag_of(json: Json, name: Seq<char>) -> Option<bool> {
    match given(json, name) {
        Some(Json::Bool(flag)) => Some(flag),
        _ => None,
    }
}

/// An absent member fits a count field, and so does an integer from 0 to `u64::MAX`.
pub open spec fn count_fits(json: Json, name: Seq<char>) -> bool {
    given(json, name) matches Some(inner) ==> inner matches Json::Number(Some(n)) && 0 <= n
        <= u64::MAX
}

/// The integer of the member called `name`.
pub open spec fn count_of(json: Json, name: Seq<char>) -> Option<int> {
    match given(json, name) {
        Some(Json::Number(Some(n))) => Some(n),
        _ => None,
    }
}

/// A count as an integer.
pub open spec fn counted(count: Option<u64>) -> Option<int> {
    match count {
        Some(n) => Some(n as int),
        None => None,
    }
}

/// Every element is a string.
pub open spec fn all_text(list: Seq<Json>) -> bool {
    forall|i: int| 0 <= i < list.len() ==> #[trigger] list[i] is Text
}

/// The strings of the elements, in their order.
pub open spec fn texts(list: Seq<Json>) -> Seq<Seq<char>> {
    Seq::new(list.len(), |i: int| list[i]->Text_0)
}

/// An absent member fits a field that lists strings, and so does an array of strings.
pub open spec fn text_list_fits(json: Json, name: Seq<char>) -> bool {
    given(json, name) matches Some(inner) ==> inner matches Json::Array(list) && all_text(list)
}

/// The strings of the array called `name`.
pub open spec fn text_list_of(json: Json, name: Seq<char>) -> Option<Seq<Seq<char>>> {
    match given(json, name) {
        Some(Json::Array(list)) => Some(texts(list)),
        _ => None,
    }
}

/// Every member is a string.
pub open spec fn all_text_members(members: Map<Seq<char>, Json>) -> bool {
    forall|name: Seq<char>| #[trigger] members.contains_key(name) ==> members[name] is Text
}

/// An absent member fits a field that maps strings to strings, and so does an object whose
/// members are all strings.
pub open spec fn text_map_fits(json: Json, name: Seq<char>) -> bool {
    given(json, name) matches Some(inner) ==> inner matches Json::Object(members)
        && all_text_members(members)
}

/// The members of the object called `name`.
pub open spec fn text_map_of(json: Json, name: Seq<char>) -> Option<Map<Seq<char>, Json>> {
    match given(json, name) {
        Some(Json::Object(members)) => Some(members),
        _ => None,
    }
}

/// `pairs` names every member of `members` once, each with the string stored under its name.
pub open spec fn spells(pairs: Seq<(Seq<char>, Seq<char>)>, members: Map<Seq<char>, Json>) -> bool {
    &&& forall|i: int|
        0 <= i < pairs.len() ==> members.contains_key(#[trigger] pairs[i].0) && members[pairs[i].0]
            == Json::Text(pairs[i].1)
    &&& forall|i: int, j: int|
        0 <= i < j < pairs.len() ==> #[trigger] pairs[i].0 != #[trigger] pairs[j].0
    &&& forall|name: Seq<char>| #[trigger]
        members.contains_key(name) ==> exists|i: int| 0 <= i < pairs.len() && pairs[i].0 == name
}

/// What [`optional_text_map`] hands back for a document that fits.
pub open spec fn spells_field(
    pairs: Option<Seq<(Seq<char>, Seq<char>)>>,
    members: Option<Map<Seq<char>, Json>>,
) -> bool {
    match (pairs, members) {
        (Some(p), Some(m)) => spells(p, m),
        (None, None) => true,
        _ => false,
    }
}

/// What [`document`] makes of a parse.
pub open spec fn document_of(text: Seq<char>) -> Result<serde_json::Value, DecodeError> {
    match parsed(text) {
        Ok(value) => Ok(value),
        Err(e) => Err(DecodeError::Syntax(e)),
    }
}

/// Parses `body` as one JSON document.
pub fn document(body: &str) -> (parse: Result<serde_json::Value, DecodeError>)
    ensures
        parse == document_of(body@),
{
    match parse(body) {
        Ok(value) => Ok(value),
        Err(e) => Err(DecodeError::Syntax(e)),
    }
}

/// Whether `value` is an object, as every response is.
pub fn object(value: &serde_json::Value) -> (is: bool)
    ensures
        is == (json_of(*value) is Object),
{
    is_object(value)
}

/// Whether `json` is an object with what every response starts with: the flag `ok` and the
/// text `error`.
pub open spec fn status_fits(json: Json) -> bool {
    &&& json is Object
    &&& flag_fits(json, "ok"@)
    &&& text_fits(json, "error"@)
}

/// Whether `ok` and `error` are what `json` holds under these names. Without the member
/// `ok` the call counts as failed.
pub open spec fn status_holds(ok: bool, error: Option<String>, json: Json) -> bool {
    &&& ok == (flag_of(json, "ok"@) == Some(true))
    &&& error.deep_view() == text_of(json, "error"@)
}

/// The member of `value` called `name`, unless it is missing or `null`.
pub fn present<'a>(value: &'a serde_json::Value, name: &str) -> (found: Option<
    &'a serde_json::Value,
>)
    ensures
        match found {
            Some(inner) => given(json_of(*value), name@) == Some(json_of(*inner)),
            None => given(json_of(*value), name@) is None,
        },
{
    match member(value, name) {
        Some(inner) => if is_null(inner) {
            None
        } else {
            Some(inner)
        },
        None => None,
    }
}

/// Reads the text field `name`.
pub fn optional_text(value: &serde_json::Value, name: &str) -> (field: Result<
    Option<String>,
    DecodeError,
>)
    ensures
        text_fits(json_of(*value), name@) ==> field is Ok && field->Ok_0.deep_view() == text_of(
            json_of(*value),
            name@,
        ),
        !text_fits(json_of(*value), name@) ==> field == Err::<Option<String>, DecodeError>(
            DecodeError::Shape,
        ),
{
    match present(value, name) {
        None => Ok(None),
        Some(inner) => match as_text(inner) {
            Some(text) => Ok(Some(text.to_owned())),
            None => Err(DecodeError::Shape),
        },
    }
}

/// Reads the text field `name`, which must not be absent.
pub fn required_text(value: &serde_json::Value, name: &str) -> (field: Result<String, DecodeError>)
    ensures
        text_of(json_of(*value), name@) is Some ==> field is Ok && field->Ok_0@ == text_of(
            json_of(*value),
            name@,
        )->Some_0,
        text_of(json_of(*value), name@) is None ==> field == Err::<String, DecodeError>(
            DecodeError::Shape,
        ),
{
    match present(value, name) {
        None => Err(DecodeError::Shape),
        Some(inner) => match as_text(inner) {
            Some(text) => Ok(text.to_owned()),
            None => Err(DecodeError::Shape),
        },
    }
}

/// Reads the flag field `name`.
pub fn optional_flag(value: &serde_json::Value, name: &str) -> (field: Result<
    Option<bool>,
    DecodeError,
>)
    ensures
        flag_fits(json_of(*value), name@) ==> field == Ok::<Option<bool>, DecodeError>(
            flag_of(json_of(*value), name@),
        ),
        !flag_fits(json_of(*value), name@) ==> field == Err::<Option<bool>, DecodeError>(
            DecodeError::Shape,
        ),
{
    match present(value, name) {
        None => Ok(None),
        Some(inner) => match as_flag(inner) {
            Some(flag) => Ok(Some(flag)),
            None => Err(DecodeError::Shape),
        },
    }
}

/// Reads the flag field `name`; an absent flag counts as `false`.
pub fn flag_or_false(value: &serde_json::Value, name: &str) -> (field: Result<bool, DecodeError>)
    ensures
        flag_fits(json_of(*value), name@) ==> field == Ok::<bool, DecodeError>(
            flag_of(json_of(*value), name@) == Some(true),
        ),
        !flag_fits(json_of(*value), name@) ==> field == Err::<bool, DecodeError>(
            DecodeError::Shape,
        ),
{
    match optional_flag(value, name) {
        Ok(Some(flag)) => Ok(flag),
        Ok(None) => Ok(false),
        Err(e) => Err(e),
    }
}

/// Reads the count field `name`.
pub fn optional_count(value: &serde_json::Value, name: &str) -> (field: Result<
    Option<u64>,
    DecodeError,
>)
    ensures
        count_fits(json_of(*value), name@) ==> field is Ok && counted(field->Ok_0) == count_of(
            json_of(*value),
            name@,
        ),
        !count_fits(json_of(*value), name@) ==> field == Err::<Option<u64>, DecodeError>(
            DecodeError::Shape,
        ),
{
    match present(value, name) {
        None => Ok(None),
        Some(inner) => match as_count(inner) {
            Some(n) => Ok(Some(n)),
            None => Err(DecodeError::Shape),
        },
    }
}

/// Reads the field `name` that lists strings.
pub fn optional_text_list(value: &serde_json::Value, name: &str) -> (field: Result<
    Option<Vec<String>>,
    DecodeError,
>)
    ensures
        text_list_fits(json_of(*value), name@) ==> field is Ok && field->Ok_0.deep_view()
            == text_list_of(json_of(*value), name@),
        !text_list_fits(json_of(*value), name@) ==> field == Err::<
            Option<Vec<String>>,
            DecodeError,
        >(DecodeError::Shape),
{
    let inner = match present(value, name) {
        None => { return Ok(None); },
        Some(inner) => inner,
    };
    let elements = match items(inner) {
        None => { return Err(DecodeError::Shape); },
        Some(elements) => elements,
    };
    let ghost list = models(elements@);
    let mut out: Vec<String> = Vec::new();
    let mut i: usize = 0;
    while i < elements.len()
        invariant
            i <= elements.len(),
            list == models(elements@),
            given(json_of(*value), name@) == Some(Json::Array(list)),
            out@.len() == i,
            forall|k: int| 0 <= k < i ==> list[k] == Json::Text(#[trigger] out@[k]@),
        decreases elements.len() - i,
    {
        match as_text(&elements[i]) {
            Some(text) => {
                out.push(text.to_owned());
            },
            None => {
                assert(!(list[i as int] is Text));
                return Err(DecodeError::Shape);
            },
        }
        i = i + 1;
    }
    proof {
        assert(all_text(list)) by {
            assert forall|k: int| 0 <= k < list.len() implies #[trigger] list[k] is Text by {
                assert(list[k] == Json::Text(out@[k]@));
            }
        }
        assert(out.deep_view() =~= texts(list)) by {
            assert(out.deep_view().len() == out@.len());
            assert forall|k: int| 0 <= k < out@.len() implies out.deep_view()[k] == texts(
                list,
            )[k] by {
                assert(list[k] == Json::Text(out@[k]@));
                assert(out.deep_view()[k] == out@[k].deep_view());
            }
        }
    }
    Ok(Some(out))
}

/// Reads the field `name` that maps strings to strings. The pairs come in no stated order.
pub fn optional_text_map(value: &serde_json::Value, name: &str) -> (field: Result<
    Option<Vec<(String, String)>>,
    DecodeError,
>)
    ensures
        text_map_fits(json_of(*value), name@) ==> field is Ok && spells_field(
            field->Ok_0.deep_view(),
            text_map_of(json_of(*value), name@),
        ),
        !text_map_fits(json_of(*value), name@) ==> field == Err::<
            Option<Vec<(String, String)>>,
            DecodeError,
        >(DecodeError::Shape),
{
    let inner = match present(value, name) {
        None => { return Ok(None); },
        Some(inner) => inner,
    };
    let list = match entries(inner) {
        None => { return Err(DecodeError::Shape); },
        Some(list) => list,
    };
    let ghost members = json_of(*inner)->Object_0;
    let mut out: Vec<(String, String)> = Vec::new();
    let mut i: usize = 0;
    while i < list.len()
        invariant
            i <= list.len(),
            lists(list@, members),
            given(json_of(*value), name@) == Some(Json::Object(members)),
            out@.len() == i,
            forall|k: int|
                0 <= k < i ==> (#[trigger] out@[k]).0@ == list@[k].0@ && members[list@[k].0@]
                    == Json::Text(out@[k].1@),
        decreases list.len() - i,
    {
        let (key, entry) = list[i];
        match as_text(entry) {
            Some(text) => {
                out.push((key.to_owned(), text.to_owned()));
            },
            None => {
                assert(members.contains_key(list@[i as int].0@));
                assert(!(members[list@[i as int].0@] is Text));
                return Err(DecodeError::Shape);
            },
        }
        i = i + 1;
    }
    proof {
        let pairs = out.deep_view();
        assert(pairs.len() == out@.len());
        assert forall|k: int| 0 <= k < pairs.len() implies (#[trigger] pairs[k]).0 == list@[k].0@
            && members[list@[k].0@] == Json::Text(pairs[k].1) by {
            assert(pairs[k] == out@[k].deep_view());
            assert(out@[k].0@ == list@[k].0@);
        }
        assert(all_text_members(members)) by {
            assert forall|key: Seq<char>| #[trigger]
                members.contains_key(key) implies members[key] is Text by {
                let k = choose|k: int| 0 <= k < list@.len() && list@[k].0@ == key;
                assert(members[list@[k].0@] == Json::Text(pairs[k].1));
            }
        }
        assert(spells(pairs, members)) by {
            assert forall|k: int| 0 <= k < pairs.len() implies members.contains_key(
                #[trigger] pairs[k].0,
            ) && members[pairs[k].0] == Json::Text(pairs[k].1) by {
                assert(members.contains_key(list@[k].0@));
            }
            assert forall|a: int, b: int| 0 <= a < b < pairs.len() implies #[trigger] pairs[a].0
                != #[trigger] pairs[b].0 by {
                assert(list@[a].0@ != list@[b].0@);
            }
            assert forall|key: Seq<char>| #[trigger]
                members.contains_key(key) implies exists|k: int|
                0 <= k < pairs.len() && pairs[k].0 == key by {
                let k = choose|k: int| 0 <= k < list@.len() && list@[k].0@ == key;
                assert(pairs[k].0 == key);
            }
        }
    }
    Ok(Some(out))
}

/// Reads `ok` and `error`, with which every response starts.
pub fn status(value: &serde_json::Value) -> (read: Result<(bool, Option<String>), DecodeError>)
    ensures
        status_fits(json_of(*value)) ==> read is Ok && status_holds(
            read->Ok_0.0,
            read->Ok_0.1,
            json_of(*value),
        ),
        !status_fits(json_of(*value)) ==> read == Err::<(bool, Option<String>), DecodeError>(
            DecodeError::Shape,
        ),
{
    if !object(value) {
        return Err(DecodeError::Shape);
    }
    let ok = match flag_or_false(value, "ok") {
        Ok(ok) => ok,
        Err(e) => { return Err(e); },
    };
    match optional_text(value, "error") {
        Ok(error) => Ok((ok, error)),
        Err(e) => Err(e),
    }
}

} // verus!
