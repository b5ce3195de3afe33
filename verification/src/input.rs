//! The input decoder: one uniform way from a raw request body and its
//! declared content type to a decoded data value, or to a typed rejection.

use vstd::prelude::*;
use crate::json::{json_parse_bytes, json_repr, parse_json_bytes, json_error_message, to_json_string};
use crate::media::{
    is_form_media, is_json_media, json_media_bytes, json_media_type, matches_form_media,
    matches_json_media, opt_bytes,
};
use crate::response::{ContentType, HttpResponse};

verus! {

#[verifier::external_type_specification]
#[verifier::external_body]
pub struct ExFormError(serde_urlencoded::de::Error);

/// What decoding a form-encoded body yields: the canonical JSON text of the
/// decoded value, or `None` where the bytes do not decode.
pub uninterp spec fn form_parse(b: Seq<u8>) -> Option<Seq<char>>;

/// Relies on `serde_urlencoded::from_bytes`: decodes form-encoded pairs
/// into a data value; the outcome is a function of the bytes alone.
#[verifier::external_body]
fn parse_form_bytes(b: &[u8]) -> (r: Result<serde_json::Value, serde_urlencoded::de::Error>)
    ensures
        match r {
            Ok(v) => form_parse(b@) == Some(json_repr(v)),
            Err(_) => form_parse(b@) is None,
        },
{
    serde_urlencoded::from_bytes(b)
}

/// The diagnostic text of a form decode failure: a function of the error
/// value alone.
pub uninterp spec fn form_error_text(e: serde_urlencoded::de::Error) -> Seq<char>;

/// Relies on the `Display` impl of `serde_urlencoded::de::Error` for a
/// human-readable description of a decode failure.
#[verifier::external_body]
fn form_error_message(e: &serde_urlencoded::de::Error) -> (r: String)
    ensures
        r@ == form_error_text(*e),
{
    format!("{e}")
}

/// A decoded request body.
pub struct AutoInput(pub serde_json::Value);

/// Why a request body could not be decoded.
pub enum AutoInputRejection {
    JsonRejection(serde_json::Error),
    FormRejection(serde_urlencoded::de::Error),
    BadContentType,
}

/// Whether the declared content type selects one of the two decoders.
pub open spec fn media_matched(ct: Option<Seq<u8>>) -> bool {
    ct matches Some(h) && (is_json_media(h) || is_form_media(h))
}

impl AutoInput {
    /// Decodes a request body by its declared content type, exactly one
    /// decoder running: `application/json` and
    /// `application/x-www-form-urlencoded` are matched case-insensitively,
    /// anything else — a missing header included — is rejected outright.
    pub fn from_request(content_type: Option<&[u8]>, body: &[u8]) -> (r: Result<
        AutoInput,
        AutoInputRejection,
    >)
        ensures
            (opt_bytes(content_type) matches Some(h) && is_json_media(h)) ==> match json_parse_bytes(
                body@,
            ) {
                Some(repr) => r matches Ok(v) && json_repr(v.0) == repr,
                None => r matches Err(AutoInputRejection::JsonRejection(_)),
            },
            (opt_bytes(content_type) matches Some(h) && !is_json_media(h) && is_form_media(h))
                ==> match form_parse(body@) {
                Some(repr) => r matches Ok(v) && json_repr(v.0) == repr,
                None => r matches Err(AutoInputRejection::FormRejection(_)),
            },
            !media_matched(opt_bytes(content_type)) ==> r matches Err(
                AutoInputRejection::BadContentType,
            ),
    {
        match content_type {
            Some(h) => {
                if matches_json_media(h) {
                    match parse_json_bytes(body) {
                        Ok(v) => Ok(AutoInput(v)),
                        Err(e) => Err(AutoInputRejection::JsonRejection(e)),
                    }
                } else if matches_form_media(h) {
                    match parse_form_bytes(body) {
                        Ok(v) => Ok(AutoInput(v)),
                        Err(e) => Err(AutoInputRejection::FormRejection(e)),
                    }
                } else {
                    Err(AutoInputRejection::BadContentType)
                }
            },
            None => Err(AutoInputRejection::BadContentType),
        }
    }
}

/// Law: emitting a data value as a JSON body and decoding that body back
/// through the input decoder yields, wherever the decode succeeds — the
/// parser's nesting-depth cap is the one obstacle — a value with the same
/// canonical JSON text as the one emitted.
pub fn json_emit_decode(v: &serde_json::Value) -> (r: Result<AutoInput, AutoInputRejection>)
    ensures
        r matches Ok(w) ==> json_repr(w.0) == json_repr(*v),
{
    let body = to_json_string(v);
    let media = json_media_bytes();
    proof {
        assert(is_json_media(json_media_type()));
    }
    AutoInput::from_request(Some(media.as_slice()), body.as_str().as_bytes())
}

impl AutoInputRejection {
    /// Turns a rejection into its client-facing response: always status
    /// 400, always plain text, with a fixed body where no decoder matched
    /// and the matched decoder's own diagnostic otherwise.
    pub fn into_response(self) -> (r: HttpResponse)
        ensures
            r.status == 400,
            r.content_type is Text,
            self matches AutoInputRejection::JsonRejection(e) ==> r.body@ == crate::json::json_error_text(e),
            self matches AutoInputRejection::FormRejection(e) ==> r.body@ == form_error_text(e),
            self is BadContentType ==> r.body@ == "Expected a content type"@,
    {
        match self {
            AutoInputRejection::JsonRejection(e) => HttpResponse {
                status: 400,
                content_type: ContentType::Text,
                body: json_error_message(&e),
            },
            AutoInputRejection::FormRejection(e) => HttpResponse {
                status: 400,
                content_type: ContentType::Text,
                body: form_error_message(&e),
            },
            AutoInputRejection::BadContentType => HttpResponse {
                status: 400,
                content_type: ContentType::Text,
                body: String::from_str("Expected a content type"),
            },
        }
    }
}

impl From<serde_json::Error> for AutoInputRejection {
    /// Wraps a JSON decode failure, as `?` in a handler would.
    fn from(value: serde_json::Error) -> (r: Self) {
        AutoInputRejection::JsonRejection(value)
    }
}

impl vstd::std_specs::convert::FromSpecImpl<serde_json::Error> for AutoInputRejection {
    open spec fn obeys_from_spec() -> bool {
        true
    }

    open spec fn from_spec(value: serde_json::Error) -> Self {
        AutoInputRejection::JsonRejection(value)
    }
}

impl From<serde_urlencoded::de::Error> for AutoInputRejection {
    /// Wraps a form decode failure, as `?` in a handler would.
    fn from(value: serde_urlencoded::de::Error) -> (r: Self) {
        AutoInputRejection::FormRejection(value)
    }
}

impl vstd::std_specs::convert::FromSpecImpl<serde_urlencoded::de::Error> for AutoInputRejection {
    open spec fn obeys_from_spec() -> bool {
        true
    }

    open spec fn from_spec(value: serde_urlencoded::de::Error) -> Self {
        AutoInputRejection::FormRejection(value)
    }
}

} // verus!
