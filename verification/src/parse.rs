//! Request-body parsing: JSON bytes become a structured request.
//!
//! The JSON grammar itself is handled by an external parser whose result is
//! modelled abstractly; the shape checks on top of it — an object with the
//! four required fields of the right types — are verified here.

use vstd::prelude::*;
use crate::request::{RequestModel, SampleResponse};

verus! {

#[verifier::external_type_specification]
#[verifier::external_body]
pub struct ExValue(serde_json::Value);

/// Abstract model of a parsed JSON document.
pub enum JsonData {
    Null,
    Bool(bool),
    Num,
    Str(Seq<char>),
    Arr(Seq<JsonData>),
    Obj(Map<Seq<char>, JsonData>),
}

/// What a parsed JSON value holds.
pub uninterp spec fn json_model(v: serde_json::Value) -> JsonData;

/// What parsing a byte sequence as JSON yields: the document model, or
/// nothing when the bytes are not a valid JSON document.
pub uninterp spec fn json_parse(bytes: Seq<u8>) -> Option<JsonData>;

/// Relies on serde_json::from_slice::<Value>: parses the bytes as one JSON
/// document or rejects them, a function of the bytes alone.
#[verifier::external_body]
fn parse_json(body: &[u8]) -> (r: Option<serde_json::Value>)
    ensures
        match r {
            Some(v) => json_parse(body@) == Some(json_model(v)),
            None => json_parse(body@) is None,
        },
{
    serde_json::from_slice(body).ok()
}

/// Relies on serde_json::Value::get with a string key: the lookup succeeds
/// exactly when the value is an object holding the key, and returns that
/// entry.
#[verifier::external_body]
fn json_get<'a>(v: &'a serde_json::Value, key: &str) -> (r: Option<&'a serde_json::Value>)
    ensures
        match json_model(*v) {
            JsonData::Obj(m) => match r {
                Some(f) => m.contains_key(key@) && json_model(*f) == m[key@],
                None => !m.contains_key(key@),
            },
            _ => r is None,
        },
{
    v.get(key)
}

/// Relies on serde_json::Value::as_str: the characters of a JSON string,
/// nothing for any other kind of value.
#[verifier::external_body]
fn json_as_str<'a>(v: &'a serde_json::Value) -> (r: Option<&'a str>)
    ensures
        match json_model(*v) {
            JsonData::Str(s) => r matches Some(t) && t@ == s,
            _ => r is None,
        },
{
    v.as_str()
}

/// Relies on serde_json::Value::as_array: the elements of a JSON array,
/// nothing for any other kind of value.
#[verifier::external_body]
fn json_as_array<'a>(v: &'a serde_json::Value) -> (r: Option<&'a Vec<serde_json::Value>>)
    ensures
        match json_model(*v) {
            JsonData::Arr(elts) => r matches Some(a) && a@.len() == elts.len() && (forall|i: int|
                0 <= i < elts.len() ==> json_model(#[trigger] a@[i]) == elts[i]),
            _ => r is None,
        },
{
    v.as_array()
}

/// The text of a string member of a JSON object, when it is present with
/// that type.
pub open spec fn string_field(m: Map<Seq<char>, JsonData>, key: Seq<char>) -> Option<Seq<char>> {
    if m.contains_key(key) && m[key] is Str {
        Some(m[key]->Str_0)
    } else {
        None
    }
}

/// The texts of a JSON value that is an array of strings; nothing for any
/// other shape.
pub open spec fn string_list(d: JsonData) -> Option<Seq<Seq<char>>> {
    match d {
        JsonData::Arr(elts) => if forall|i: int| 0 <= i < elts.len() ==> (#[trigger] elts[i]) is Str {
            Some(Seq::new(elts.len(), |i: int| elts[i]->Str_0))
        } else {
            None
        },
        _ => None,
    }
}

/// The structured request read off a parsed JSON document: an object whose
/// `destination`, `duration` and `num_people` members are strings and whose
/// `activities` member is an array of strings.  Further members are
/// ignored; anything else is invalid.
pub open spec fn request_of_json(d: JsonData) -> Option<RequestModel> {
    match d {
        JsonData::Obj(m) => match (
            string_field(m, "destination"@),
            string_field(m, "duration"@),
            string_field(m, "num_people"@),
        ) {
            (Some(dest), Some(dur), Some(num)) => if m.contains_key("activities"@) {
                match string_list(m["activities"@]) {
                    Some(acts) => Some(
                        (RequestModel {
                            destination: dest,
                            duration: dur,
                            num_people: num,
                            activities: acts,
                        }),
                    ),
                    None => None,
                }
            } else {
                None
            },
            _ => None,
        },
        _ => None,
    }
}

/// The parse decision on a request body.
pub open spec fn parse_result(bytes: Seq<u8>) -> Option<RequestModel> {
    match json_parse(bytes) {
        Some(d) => request_of_json(d),
        None => None,
    }
}

/// Read a string member out of a parsed JSON object.
fn get_string_field(v: &serde_json::Value, key: &str) -> (r: Option<String>)
    ensures
        match json_model(*v) {
            JsonData::Obj(m) => match r {
                Some(s) => string_field(m, key@) == Some(s@),
                None => string_field(m, key@) is None,
            },
            _ => r is None,
        },
{
    match json_get(v, key) {
        Some(f) => match json_as_str(f) {
            Some(s) => Some(s.to_owned()),
            None => None,
        },
        None => None,
    }
}

/// Read a JSON value that must be an array of strings.
fn get_string_list(f: &serde_json::Value) -> (r: Option<Vec<String>>)
    ensures
        match r {
            Some(items) => string_list(json_model(*f)) == Some(items.deep_view()),
            None => string_list(json_model(*f)) is None,
        },
{
    let arr = match json_as_array(f) {
        Some(a) => a,
        None => {
            return None;
        },
    };
    let ghost elts = json_model(*f)->Arr_0;
    let mut out: Vec<String> = Vec::new();
    let mut i: usize = 0;
    while i < arr.len()
        invariant
            i <= arr.len(),
            json_model(*f) is Arr,
            elts == json_model(*f)->Arr_0,
            arr@.len() == elts.len(),
            forall|j: int| 0 <= j < elts.len() ==> json_model(#[trigger] arr@[j]) == elts[j],
            forall|j: int| 0 <= j < i ==> (#[trigger] elts[j]) is Str,
            out@.len() == i,
            forall|j: int| 0 <= j < i ==> (#[trigger] out@[j])@ == elts[j]->Str_0,
        decreases arr.len() - i,
    {
        let s = match json_as_str(&arr[i]) {
            Some(s) => s,
            None => {
                proof {
                    assert(!(elts[i as int] is Str));
                }
                return None;
            },
        };
        out.push(s.to_owned());
        i = i + 1;
    }
    proof {
        assert(out.deep_view() =~= Seq::new(elts.len(), |j: int| elts[j]->Str_0));
    }
    Some(out)
}

/// Parse a request body.  The structured request is returned exactly when
/// the body is a JSON document of the required shape; everything else is
/// rejected.
pub fn parse_request(body: &[u8]) -> (r: Option<SampleResponse>)
    ensures
        match r {
            Some(req) => parse_result(body@) == Some(req@),
            None => parse_result(body@) is None,
        },
{
    let v = match parse_json(body) {
        Some(v) => v,
        None => {
            return None;
        },
    };
    let destination = match get_string_field(&v, "destination") {
        Some(s) => s,
        None => {
            return None;
        },
    };
    let duration = match get_string_field(&v, "duration") {
        Some(s) => s,
        None => {
            return None;
        },
    };
    let num_people = match get_string_field(&v, "num_people") {
        Some(s) => s,
        None => {
            return None;
        },
    };
    let acts_value = match json_get(&v, "activities") {
        Some(f) => f,
        None => {
            return None;
        },
    };
    let activities = match get_string_list(acts_value) {
        Some(items) => items,
        None => {
            return None;
        },
    };
    Some(SampleResponse { destination, duration, num_people, activities })
}

} // verus!
