//! The JSON side of the emitter: serializing a data value to its wire text
//! and parsing such text back, through `serde_json`.

use vstd::prelude::*;

verus! {

#[verifier::external_type_specification]
#[verifier::external_body]
pub struct ExValue(serde_json::Value);

#[verifier::external_type_specification]
#[verifier::external_body]
pub struct ExJsonError(serde_json::Error);

/// The canonical JSON text of a data value: what serializing it returns.
pub uninterp spec fn json_repr(v: serde_json::Value) -> Seq<char>;

/// What parsing JSON text yields: the canonical text of the parsed value,
/// or `None` where the text is not valid JSON.
pub uninterp spec fn json_parse(s: Seq<char>) -> Option<Seq<char>>;

/// As `json_parse`, for a raw byte body.
pub uninterp spec fn json_parse_bytes(b: Seq<u8>) -> Option<Seq<char>>;

/// Relies on `serde_json::to_string`: serializing a `Value` always succeeds
/// and returns its canonical JSON text. Parsing that text can fail — the
/// parser caps nesting depth where the serializer does not — but where it
/// succeeds (`from_str` on the text, or `from_slice` on its UTF-8 bytes) it
/// yields the same value back.
#[verifier::external_body]
pub(crate) fn to_json_string(v: &serde_json::Value) -> (r: String)
    ensures
        r@ == json_repr(*v),
        json_parse(r@) matches Some(t) ==> t == r@,
        json_parse_bytes(vstd::utf8::encode_utf8(r@)) matches Some(t) ==> t == r@,
{
    serde_json::to_string(v).unwrap()
}

/// Relies on `serde_json::from_str`: parses JSON text into a `Value`; the
/// outcome is a function of the text alone.
#[verifier::external_body]
pub(crate) fn parse_json_str(s: &str) -> (r: Result<serde_json::Value, serde_json::Error>)
    ensures
        match r {
            Ok(v) => json_parse(s@) == Some(json_repr(v)),
            Err(_) => json_parse(s@) is None,
        },
{
    serde_json::from_str(s)
}

/// Relies on `serde_json::from_slice`: parses a JSON byte body into a
/// `Value`; the outcome is a function of the bytes alone.
#[verifier::external_body]
pub(crate) fn parse_json_bytes(b: &[u8]) -> (r: Result<serde_json::Value, serde_json::Error>)
    ensures
        match r {
            Ok(v) => json_parse_bytes(b@) == Some(json_repr(v)),
            Err(_) => json_parse_bytes(b@) is None,
        },
{
    serde_json::from_slice(b)
}

/// The diagnostic text of a JSON decode failure: a function of the error
/// value alone.
pub uninterp spec fn json_error_text(e: serde_json::Error) -> Seq<char>;

/// Relies on `serde_json::Error`'s `Display` impl for a human-readable
/// description of a decode failure.
#[verifier::external_body]
pub(crate) fn json_error_message(e: &serde_json::Error) -> (r: String)
    ensures
        r@ == json_error_text(*e),
{
    format!("{e}")
}

/// Law: wherever the emitted JSON text parses back at all — the parser's
/// nesting-depth cap is the one obstacle — it parses back to a value with
/// the same canonical JSON text as the one emitted.
pub fn json_round_trip(v: &serde_json::Value) -> (r: Result<serde_json::Value, serde_json::Error>)
    ensures
        r matches Ok(w) ==> json_repr(w) == json_repr(*v),
{
    let body = to_json_string(v);
    parse_json_str(body.as_str())
}

} // verus!
