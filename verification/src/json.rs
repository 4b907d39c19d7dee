//! The boundary to serde_json, which parses response bodies.  A JSON
//! value is opaque to the verifier, but every result read out of one is
//! a function of that value alone, so each outside call carries an
//! uninterpreted name for its result; the decoders' contracts speak of
//! those names.

use vstd::prelude::*;

use crate::envelope::{spec_unwrap, Envelope, SpecFailure};
use crate::error::ProxerError;

verus! {

/// serde_json's dynamically typed JSON value.
#[verifier::external_type_specification]
#[verifier::external_body]
pub struct ExValue(serde_json::Value);

/// serde_json's error type, reported when a body is not valid JSON.
#[verifier::external_type_specification]
#[verifier::external_body]
pub struct ExError(serde_json::Error);

/// The outcome of serde_json's parse on given text: a JSON value, or
/// none when the text is not valid JSON.
pub uninterp spec fn spec_parse(text: Seq<char>) -> Option<serde_json::Value>;

/// What serde_json::Value::get returns: the value under a key of a
/// JSON object, or none.
pub uninterp spec fn spec_get(v: serde_json::Value, key: Seq<char>) -> Option<serde_json::Value>;

/// What serde_json::Value::as_u64 returns: the value as an unsigned
/// integer, when it is one.
pub uninterp spec fn spec_as_u64(v: serde_json::Value) -> Option<u64>;

/// What serde_json::Value::as_i64 returns: the value as a signed
/// integer, when it is one.
pub uninterp spec fn spec_as_i64(v: serde_json::Value) -> Option<i64>;

/// What serde_json::Value::as_str returns: the value's text, when it
/// is a JSON string.
pub uninterp spec fn spec_as_string(v: serde_json::Value) -> Option<Seq<char>>;

/// What serde_json::Value::as_array returns: the value's elements,
/// when it is a JSON array.
pub uninterp spec fn spec_as_array(v: serde_json::Value) -> Option<Seq<serde_json::Value>>;

/// What serde_json::Value::is_null returns: whether the value is JSON
/// `null`.
pub uninterp spec fn spec_is_null(v: serde_json::Value) -> bool;

/// Relies on serde_json::from_str::<Value>: parses text as JSON; the
/// outcome depends on the text alone.
#[verifier::external_body]
fn parse_value(text: &str) -> (r: Result<serde_json::Value, serde_json::Error>)
    ensures
        r matches Ok(v) ==> spec_parse(text@) == Some(v),
        r is Err ==> spec_parse(text@) is None,
{
    serde_json::from_str(text)
}

/// Relies on serde_json's Display impl for Error: renders the parse
/// diagnostic as text.
#[verifier::external_body]
fn error_text(e: &serde_json::Error) -> String {
    e.to_string()
}

/// Relies on serde_json::Value::get, whose result depends on the value
/// and the key alone.
#[verifier::external_body]
fn value_get<'a>(v: &'a serde_json::Value, key: &str) -> (r: Option<&'a serde_json::Value>)
    ensures
        r matches Some(f) ==> spec_get(*v, key@) == Some(*f),
        r is None ==> spec_get(*v, key@) is None,
{
    v.get(key)
}

/// Relies on serde_json::Value::as_u64, whose result depends on the
/// value alone.
#[verifier::external_body]
pub(crate) fn value_as_u64(v: &serde_json::Value) -> (r: Option<u64>)
    ensures
        r == spec_as_u64(*v),
{
    v.as_u64()
}

/// Relies on serde_json::Value::as_i64, whose result depends on the
/// value alone.
#[verifier::external_body]
pub(crate) fn value_as_i64(v: &serde_json::Value) -> (r: Option<i64>)
    ensures
        r == spec_as_i64(*v),
{
    v.as_i64()
}

/// Relies on serde_json::Value::as_str, whose result depends on the
/// value alone; the text is handed out owned.
#[verifier::external_body]
pub(crate) fn value_as_string(v: &serde_json::Value) -> (r: Option<String>)
    ensures
        r matches Some(s) ==> spec_as_string(*v) == Some(s@),
        r is None ==> spec_as_string(*v) is None,
{
    v.as_str().map(str::to_owned)
}

/// Relies on serde_json::Value::as_array, whose result depends on the
/// value alone.
#[verifier::external_body]
pub(crate) fn value_as_array<'a>(v: &'a serde_json::Value) -> (r: Option<&'a Vec<serde_json::Value>>)
    ensures
        r matches Some(a) ==> spec_as_array(*v) == Some(a@),
        r is None ==> spec_as_array(*v) is None,
{
    v.as_array()
}

/// Relies on serde_json::Value::is_null, whose result depends on the
/// value alone.
#[verifier::external_body]
fn value_is_null(v: &serde_json::Value) -> (r: bool)
    ensures
        r == spec_is_null(*v),
{
    v.is_null()
}

/// Parses a response body, reporting the diagnostic of serde_json as a
/// decode failure.
pub(crate) fn parse_body(text: &str) -> (r: Result<serde_json::Value, ProxerError>)
    ensures
        r matches Ok(v) ==> spec_parse(text@) == Some(v),
        r matches Err(e) ==> spec_parse(text@) is None && e matches ProxerError::Decode(_),
{
    match parse_value(text) {
        Ok(v) => Ok(v),
        Err(e) => Err(ProxerError::Decode(error_text(&e))),
    }
}

/// The unsigned integer under `key`, when the object has one there.
pub open spec fn spec_field_u64(v: serde_json::Value, key: Seq<char>) -> Option<u64> {
    match spec_get(v, key) {
        Some(f) => spec_as_u64(f),
        None => None,
    }
}

/// The signed integer under `key`, when the object has one there.
pub open spec fn spec_field_i64(v: serde_json::Value, key: Seq<char>) -> Option<i64> {
    match spec_get(v, key) {
        Some(f) => spec_as_i64(f),
        None => None,
    }
}

/// The text under `key`, when the object has a string there.
pub open spec fn spec_field_string(v: serde_json::Value, key: Seq<char>) -> Option<Seq<char>> {
    match spec_get(v, key) {
        Some(f) => spec_as_string(f),
        None => None,
    }
}

/// The value under `key`, an absent key and `null` both counting as
/// absent.
pub open spec fn spec_field_value(v: serde_json::Value, key: Seq<char>) -> Option<
    serde_json::Value,
> {
    match spec_get(v, key) {
        Some(f) => if spec_is_null(f) {
            None
        } else {
            Some(f)
        },
        None => None,
    }
}

/// The elements of the array under `key`, when there is one.
pub open spec fn spec_field_array(v: serde_json::Value, key: Seq<char>) -> Option<
    Seq<serde_json::Value>,
> {
    match spec_get(v, key) {
        Some(f) => spec_as_array(f),
        None => None,
    }
}

pub(crate) fn field_u64(v: &serde_json::Value, key: &str) -> (r: Option<u64>)
    ensures
        r == spec_field_u64(*v, key@),
{
    match value_get(v, key) {
        Some(f) => value_as_u64(f),
        None => None,
    }
}

pub(crate) fn field_i64(v: &serde_json::Value, key: &str) -> (r: Option<i64>)
    ensures
        r == spec_field_i64(*v, key@),
{
    match value_get(v, key) {
        Some(f) => value_as_i64(f),
        None => None,
    }
}

pub(crate) fn field_string(v: &serde_json::Value, key: &str) -> (r: Option<String>)
    ensures
        r matches Some(s) ==> spec_field_string(*v, key@) == Some(s@),
        r is None ==> spec_field_string(*v, key@) is None,
{
    match value_get(v, key) {
        Some(f) => value_as_string(f),
        None => None,
    }
}

pub(crate) fn field_value<'a>(v: &'a serde_json::Value, key: &str) -> (r: Option<
    &'a serde_json::Value,
>)
    ensures
        r matches Some(f) ==> spec_field_value(*v, key@) == Some(*f),
        r is None ==> spec_field_value(*v, key@) is None,
{
    match value_get(v, key) {
        Some(f) => if value_is_null(f) {
            None
        } else {
            Some(f)
        },
        None => None,
    }
}

pub(crate) fn field_array<'a>(v: &'a serde_json::Value, key: &str) -> (r: Option<
    &'a Vec<serde_json::Value>,
>)
    ensures
        r matches Some(a) ==> spec_field_array(*v, key@) == Some(a@),
        r is None ==> spec_field_array(*v, key@) is None,
{
    match value_get(v, key) {
        Some(f) => value_as_array(f),
        None => None,
    }
}

/// The generic envelope fields of a parsed response: the error code,
/// the optional message, and the optional payload; none when the
/// response has no integer `error` field.
pub open spec fn spec_envelope_of(v: serde_json::Value) -> Option<
    (u64, Option<Seq<char>>, Option<serde_json::Value>),
> {
    match spec_field_u64(v, "error"@) {
        Some(e) => Some((e, spec_field_string(v, "message"@), spec_field_value(v, "data"@))),
        None => None,
    }
}

/// The decision a generic-envelope response forces, read off the named
/// outside results: unparsable text and a missing integer `error`
/// field are decode failures; otherwise the codec's `spec_unwrap`
/// decides with expected success code zero.
pub enum ResponseModel {
    /// The text is not valid JSON.
    Unparsed,
    /// The JSON has no integer `error` field.
    BadEnvelope,
    /// The error code differed from zero.
    Failure { code: u64, message: Seq<char> },
    /// The error code was zero but the payload is absent.
    Missing,
    /// The error code was zero; `data` is the payload.
    Payload { data: serde_json::Value },
}

/// Reads the decision for given response text off the names.
pub open spec fn spec_response(text: Seq<char>) -> ResponseModel {
    match spec_parse(text) {
        None => ResponseModel::Unparsed,
        Some(v) => match spec_envelope_of(v) {
            None => ResponseModel::BadEnvelope,
            Some(env) => match spec_unwrap(env.0, env.1, env.2, 0) {
                Err(SpecFailure::Api { code, message }) => ResponseModel::Failure { code, message },
                Err(SpecFailure::MissingData) => ResponseModel::Missing,
                Ok(d) => ResponseModel::Payload { data: d },
            },
        },
    }
}

/// Reads the generic envelope shape out of a parsed response: the
/// required `error` code, the optional `code` and `message` fields, and
/// the `data` payload (absent and `null` both count as no payload).  A
/// response without an integer `error` field does not match the
/// envelope shape and is a decode failure.
pub(crate) fn read_envelope<'a>(v: &'a serde_json::Value) -> (r: Result<
    Envelope<&'a serde_json::Value>,
    ProxerError,
>)
    ensures
        spec_envelope_of(*v) is None ==> (r matches Err(e) && e matches ProxerError::Decode(_)),
        spec_envelope_of(*v) matches Some(env) ==> (r matches Ok(re) && re.error == env.0
            && crate::envelope::message_view(re.message) == env.1 && (re.data matches Some(d)
            ==> env.2 == Some(*d)) && (re.data is None ==> env.2 is None) && re.code
            == spec_field_u64(*v, "code"@)),
{
    let error = match field_u64(v, "error") {
        Some(e) => e,
        None => {
            return Err(ProxerError::Decode("envelope lacks an integer error field".to_owned()));
        },
    };
    let env = Envelope {
        error,
        code: field_u64(v, "code"),
        message: field_string(v, "message"),
        data: field_value(v, "data"),
    };
    Ok(env)
}

} // verus!
