//! What a call to the service comes to, given what the transport brought
//! back: a typed value, or the error that says why there is none.

use vstd::prelude::*;
use vstd::string::StringExecFns;
use crate::decode::{find_absent, first_absent, text_view, Record};
use crate::json::{json_of_text, parse_json};
use crate::model::UnknownEnumValue;

verus! {

/// Why a response body is no record.
#[derive(Debug, Clone, PartialEq, Eq)]
pub enum Diagnostic {
    /// The body is not a JSON document; `message` is the parser's account
    /// of what is wrong with it, and where.
    NotJson { message: String },
    /// The body is JSON and has every member that the record requires,
    /// but an enumeration integer in it, in the record itself or in one
    /// inside it, is none of the constants of its enumeration. The value is
    /// the first such integer.
    UnknownEnumValue(UnknownEnumValue),
    /// The body is JSON, but not the JSON form of the record asked for, in
    /// another way: a required member is missing, or a member has another
    /// type than the record asks for. `missing` is the first member, in
    /// the order of the record's fields, that the record requires and the
    /// body lacks; it is absent where the body has them all and the fault
    /// lies in a member's value.
    SchemaMismatch { missing: Option<String> },
}

/// The failure of a call.
#[derive(Debug, Clone, PartialEq, Eq)]
pub enum ApiError {
    /// The transport failed; `cause` is what it reported.
    TransportError { cause: String },
    /// The response is not what the route returns; `body` is the response
    /// as it came.
    MalformedResponse { body: String, diagnostic: Diagnostic },
}

/// The diagnostic of a document that is the JSON form of no record, given
/// the first required member that it lacks and the first enumeration
/// integer in it that is no constant: a missing member is named before
/// all else, then an unknown enumeration value, and a mismatch without a
/// missing member is what is left.
pub open spec fn names_fault(
    d: Diagnostic,
    missing: Option<Seq<char>>,
    unknown: Option<UnknownEnumValue>,
) -> bool {
    match d {
        Diagnostic::SchemaMismatch { missing: m } => text_view(m) == missing && (missing is Some
            || unknown is None),
        Diagnostic::UnknownEnumValue(e) => missing is None && unknown == Some(e),
        Diagnostic::NotJson { .. } => false,
    }
}

/// The error is a malformed response with this body, and its diagnostic
/// names the fault of the document.
pub open spec fn is_mismatch(
    e: ApiError,
    body: Seq<char>,
    missing: Option<Seq<char>>,
    unknown: Option<UnknownEnumValue>,
) -> bool {
    match e {
        ApiError::MalformedResponse { body: b, diagnostic: d } => b@ == body && names_fault(
            d,
            missing,
            unknown,
        ),
        _ => false,
    }
}

/// The error is a malformed response with this body, for a text that is
/// not JSON, with this message of the parser.
pub open spec fn is_not_json(e: ApiError, body: Seq<char>, message: Seq<char>) -> bool {
    match e {
        ApiError::MalformedResponse { body: b, diagnostic: Diagnostic::NotJson { message: m } } =>
            b@ == body && m@ == message,
        _ => false,
    }
}

/// The error is a transport error with this cause.
pub open spec fn is_transport(e: ApiError, cause: Seq<char>) -> bool {
    match e {
        ApiError::TransportError { cause: c } => c@ == cause,
        ApiError::MalformedResponse { .. } => false,
    }
}

/// What a parsed body comes to: the record that the document describes, or
/// where it describes none, a malformed response that names the first
/// required member that is missing, or else the first enumeration integer
/// that is no constant, or else neither.
pub open spec fn document_outcome<T: Record>(
    body: Seq<char>,
    j: crate::json::Json,
    r: Result<T, ApiError>,
) -> bool {
    match r {
        Ok(v) => T::describes(j, v),
        Err(e) => is_mismatch(e, body, first_absent(j, T::required()), T::unknown(j))
            && forall|v: T| !T::describes(j, v),
    }
}

/// What a body comes to: a malformed response with the parser's message
/// where it is no JSON, else what its document comes to.
pub open spec fn body_outcome<T: Record>(body: Seq<char>, r: Result<T, ApiError>) -> bool {
    match json_of_text(body) {
        Ok(j) => document_outcome(body, j, r),
        Err(message) => r is Err && is_not_json(r->Err_0, body, message),
    }
}

/// Reads a record from a parsed response. The body is the text that the
/// document was parsed from; it is kept in the error.
pub fn read_document<T: Record>(body: &str, j: &crate::json::Json) -> (r: Result<T, ApiError>)
    ensures
        document_outcome(body@, *j, r),
{
    match T::from_json(j) {
        Some(v) => Ok(v),
        None => {
            let keys = T::required_keys();
            let diagnostic = match find_absent(j, &keys) {
                Some(key) => Diagnostic::SchemaMismatch { missing: Some(key) },
                None => match T::find_unknown(j) {
                    Some(e) => Diagnostic::UnknownEnumValue(e),
                    None => Diagnostic::SchemaMismatch { missing: None },
                },
            };
            Err(ApiError::MalformedResponse { body: String::from_str(body), diagnostic })
        },
    }
}

/// Reads a record from a response body.
pub fn parse_body<T: Record>(body: &str) -> (r: Result<T, ApiError>)
    ensures
        body_outcome(body@, r),
{
    match parse_json(body) {
        Ok(j) => read_document(body, &j),
        Err(message) => Err(
            ApiError::MalformedResponse {
                body: String::from_str(body),
                diagnostic: Diagnostic::NotJson { message },
            },
        ),
    }
}

/// Concludes a call from what the one attempt of the transport gave: its
/// failure is handed on with the cause unchanged, and a body is read as the
/// record of the route.
pub fn conclude<T: Record>(outcome: Result<String, String>) -> (r: Result<T, ApiError>)
    ensures
        match outcome {
            Ok(body) => body_outcome(body@, r),
            Err(cause) => r is Err && is_transport(r->Err_0, cause@),
        },
{
    match outcome {
        Ok(body) => parse_body(body.as_str()),
        Err(cause) => Err(ApiError::TransportError { cause }),
    }
}

} // verus!
