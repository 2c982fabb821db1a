use vstd::prelude::*;

verus! {

/// Mathematical model of a JSON document, as far as the bridge reads one:
/// null, booleans, integer numbers, strings, arrays and objects. A number
/// that is not a representable integer carries no further structure here,
/// since no field the bridge decodes is one.
pub enum Json {
    Null,
    Bool(bool),
    Int(int),
    OtherNum,
    Str(Seq<char>),
    Arr(Seq<Json>),
    Obj(Map<Seq<char>, Json>),
}

#[verifier::external_type_specification]
#[verifier::external_body]
pub struct ExJsonValue(serde_json::Value);

#[verifier::external_type_specification]
#[verifier::external_body]
pub struct ExJsonError(serde_json::Error);

/// The document a `serde_json::Value` holds, in the model above.
pub uninterp spec fn value_model(v: serde_json::Value) -> Json;

/// The result of parsing a text as one JSON document: `None` where the
/// text is not well-formed JSON. The result depends on the text alone.
pub uninterp spec fn json_of(s: Seq<char>) -> Option<Json>;

/// Relies on serde_json::from_str::<Value>: parses the text as a single
/// JSON document; success and the resulting value depend on the text alone.
#[verifier::external_body]
pub fn parse_json(s: &str) -> (r: Result<serde_json::Value, serde_json::Error>)
    ensures
        r is Ok <==> json_of(s@) is Some,
        r is Ok ==> value_model(r->Ok_0) == json_of(s@)->Some_0,
{
    serde_json::from_str(s)
}

/// Relies on serde_json::Error's display rendering: the parser's own
/// diagnostic for this failure, carried into the bridge's error messages.
/// Nothing further is claimed of the text.
#[verifier::external_body]
pub fn parse_error_text(e: &serde_json::Error) -> String {
    format!("{}", e)
}

/// Relies on serde_json::Value::get with a string index: on an object it
/// looks the key up; on every other value it returns None.
#[verifier::external_body]
pub fn val_get<'a>(v: &'a serde_json::Value, key: &str) -> (r: Option<&'a serde_json::Value>)
    ensures
        value_model(*v) matches Json::Obj(m) ==> {
            &&& r is Some <==> m.dom().contains(key@)
            &&& (r matches Some(f) ==> value_model(*f) == m[key@])
        },
        !(value_model(*v) is Obj) ==> r is None,
{
    v.get(key)
}

/// Relies on serde_json::Value::as_str: returns the string a string value
/// holds, and None on every other value.
#[verifier::external_body]
pub fn val_as_str<'a>(v: &'a serde_json::Value) -> (r: Option<&'a str>)
    ensures
        r is Some <==> value_model(*v) is Str,
        r matches Some(s) ==> value_model(*v) == Json::Str(s@),
{
    v.as_str()
}

/// Relies on serde_json::Value::as_i64: returns an integer number that
/// fits in an i64, and None on every other value.
#[verifier::external_body]
pub fn val_as_i64(v: &serde_json::Value) -> (r: Option<i64>)
    ensures
        r is Some <==> (value_model(*v) matches Json::Int(i) && i64::MIN <= i <= i64::MAX),
        r matches Some(n) ==> value_model(*v) == Json::Int(n as int),
{
    v.as_i64()
}

/// Relies on serde_json::Value::as_bool: returns the boolean a boolean
/// value holds, and None on every other value.
#[verifier::external_body]
pub fn val_as_bool(v: &serde_json::Value) -> (r: Option<bool>)
    ensures
        r is Some <==> value_model(*v) is Bool,
        r matches Some(b) ==> value_model(*v) == Json::Bool(b),
{
    v.as_bool()
}

/// Relies on serde_json::Value::is_null.
#[verifier::external_body]
pub fn val_is_null(v: &serde_json::Value) -> (r: bool)
    ensures
        r <==> value_model(*v) is Null,
{
    v.is_null()
}

/// Relies on serde_json::Value::is_object.
#[verifier::external_body]
pub fn val_is_object(v: &serde_json::Value) -> (r: bool)
    ensures
        r <==> value_model(*v) is Obj,
{
    v.is_object()
}

/// Relies on serde_json::Value::as_array: returns the elements of an
/// array value, and None on every other value.
#[verifier::external_body]
pub fn val_as_array<'a>(v: &'a serde_json::Value) -> (r: Option<&'a Vec<serde_json::Value>>)
    ensures
        r is Some <==> value_model(*v) is Arr,
        r matches Some(a) ==> value_model(*v) == Json::Arr(
            a@.map_values(|x: serde_json::Value| value_model(x)),
        ),
{
    v.as_array()
}

/// Relies on serde_json::Value::clone: a deep copy holding the same
/// document.
#[verifier::external_body]
pub fn val_clone(v: &serde_json::Value) -> (r: serde_json::Value)
    ensures
        value_model(r) == value_model(*v),
{
    v.clone()
}

} // verus!
