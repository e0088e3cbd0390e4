use vstd::prelude::*;

verus! {

#[verifier::external_type_specification]
#[verifier::external_body]
pub struct ExValue(serde_json::Value);

#[verifier::external_type_specification]
#[verifier::external_body]
pub struct ExError(serde_json::Error);

/// What a JSON document holds, as far as the library reads it.
pub enum JsonModel {
    Null,
    Bool(bool),
    Number,
    Str(Seq<char>),
    Array(Seq<JsonModel>),
    Object(Map<Seq<char>, JsonModel>),
}

/// The document that a `serde_json::Value` holds.
pub uninterp spec fn json_model(v: serde_json::Value) -> JsonModel;

/// The document that a text holds, when the text is JSON.
pub uninterp spec fn parse_model(text: Seq<char>) -> Option<JsonModel>;

/// Relies on serde_json::from_str: it fails exactly on text that is not JSON,
/// and otherwise returns the value that the text writes.
#[verifier::external_body]
pub(crate) fn parse_value(text: &str) -> (r: Result<serde_json::Value, serde_json::Error>)
    ensures
        r is Ok <==> parse_model(text@) is Some,
        r is Ok ==> json_model(r->Ok_0) == parse_model(text@)->Some_0,
{
    serde_json::from_str(text)
}

/// Relies on serde_json::Value::get with a string key: the member of that
/// name of an object, and nothing for any other kind of value.
#[verifier::external_body]
pub(crate) fn member<'a>(v: &'a serde_json::Value, key: &str) -> (r: Option<&'a serde_json::Value>)
    ensures
        r is Some <==> (json_model(*v) is Object && json_model(*v)->Object_0.contains_key(key@)),
        r is Some ==> json_model(*r->Some_0) == json_model(*v)->Object_0[key@],
{
    v.get(key)
}

/// Relies on serde_json::Value::get with an index: the element at that
/// position of an array, and nothing for any other kind of value.
#[verifier::external_body]
pub(crate) fn element(v: &serde_json::Value, i: usize) -> (r: Option<&serde_json::Value>)
    ensures
        r is Some <==> (json_model(*v) is Array && i < json_model(*v)->Array_0.len()),
        r is Some ==> json_model(*r->Some_0) == json_model(*v)->Array_0[i as int],
{
    v.get(i)
}

/// Relies on serde_json::Value::as_str: the text of a string value, and
/// nothing for any other kind of value.
#[verifier::external_body]
pub(crate) fn text_of(v: &serde_json::Value) -> (r: Option<&str>)
    ensures
        r is Some <==> json_model(*v) is Str,
        r is Some ==> r->Some_0@ == json_model(*v)->Str_0,
{
    v.as_str()
}

} // verus!
