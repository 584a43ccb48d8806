use vstd::prelude::*;

use crate::error::Error;
use crate::json::{json_document, parse_json, Json};
use crate::text::{format_int, int_text, prefix_of, take_chars};
use crate::types::{
    changes_decode, changes_match, i64_member, offers_decode, offers_match, str_member,
    ChangesResponse, OffersResponse,
};

verus! {

/// How many characters of a malformed success body its error message quotes.
pub const SNIPPET_CHARS: usize = 200;

/// A status in [200, 300).
pub open spec fn is_success(status: u16) -> bool {
    200 <= status < 300
}

/// A status with which the server refuses the credential.
pub open spec fn is_auth_status(status: u16) -> bool {
    status == 401 || status == 403
}

/// The message of an error response that carries no `message` string.
pub open spec fn fallback_message(status: u16) -> Seq<char> {
    "API error: "@ + int_text(status as int)
}

/// The message of an error response whose body holds the document `doc`: its
/// `message` string, where it is an object that has one, else the fallback.
pub open spec fn message_in(status: u16, doc: Option<Json>) -> Seq<char> {
    match doc {
        Some(j) => match str_member(j, "message"@) {
            Some(m) => m,
            None => fallback_message(status),
        },
        None => fallback_message(status),
    }
}

/// The message of an error response with the body `body`.
pub open spec fn error_message(status: u16, body: Seq<char>) -> Seq<char> {
    message_in(status, json_document(body))
}

/// `e` is the error of a response whose `status` lies outside [200, 300).
pub open spec fn is_status_error(e: Error, status: u16, body: Seq<char>) -> bool {
    if is_auth_status(status) {
        e matches Error::Auth { status_code, message } && status_code == status && message@
            == error_message(status, body)
    } else {
        e matches Error::Api { status_code, message, body: b } && status_code == status
            && message@ == error_message(status, body) && b@ == body
    }
}

/// `e` is the error of a success response whose body has not the expected shape.
pub open spec fn is_malformed_error(e: Error, status: u16, body: Seq<char>) -> bool {
    e matches Error::Api { status_code, message, body: b } && status_code == status && message@
        == "Invalid JSON response: "@ + prefix_of(body, SNIPPET_CHARS as nat) && b@ == body
}

/// `r` is the outcome of a response that holds a JSON document of any shape.
pub open spec fn json_outcome(r: Result<Json, Error>, status: u16, body: Seq<char>) -> bool {
    if !is_success(status) {
        r matches Err(e) && is_status_error(e, status, body)
    } else {
        match json_document(body) {
            Some(j) => r == Ok::<Json, Error>(j),
            None => r matches Err(e) && is_malformed_error(e, status, body),
        }
    }
}

/// `r` is the outcome of a response that should hold a page of offers.
pub open spec fn offers_outcome(r: Result<OffersResponse, Error>, status: u16, body: Seq<char>) -> bool {
    if !is_success(status) {
        r matches Err(e) && is_status_error(e, status, body)
    } else if json_document(body) matches Some(j) && offers_decode(j) {
        r matches Ok(page) && offers_match(page, json_document(body)->0)
    } else {
        r matches Err(e) && is_malformed_error(e, status, body)
    }
}

/// `r` is the outcome of a response that should hold a page of the changes feed.
pub open spec fn changes_outcome(r: Result<ChangesResponse, Error>, status: u16, body: Seq<char>) -> bool {
    if !is_success(status) {
        r matches Err(e) && is_status_error(e, status, body)
    } else if json_document(body) matches Some(j) && changes_decode(j) {
        r matches Ok(page) && changes_match(page, json_document(body)->0)
    } else {
        r matches Err(e) && is_malformed_error(e, status, body)
    }
}

/// The change cursor that a success body reports.
pub open spec fn change_id_of(body: Seq<char>) -> Option<i64> {
    match json_document(body) {
        Some(j) => i64_member(j, "change_id"@),
        None => None,
    }
}

/// `r` is the outcome of a response that should report a change cursor.
pub open spec fn change_id_outcome(r: Result<i64, Error>, status: u16, body: Seq<char>) -> bool {
    if !is_success(status) {
        r matches Err(e) && is_status_error(e, status, body)
    } else {
        match change_id_of(body) {
            Some(v) => r == Ok::<i64, Error>(v),
            None => r matches Err(e) && is_malformed_error(e, status, body),
        }
    }
}

fn fallback_text(status: u16) -> (r: String)
    ensures
        r@ == fallback_message(status),
{
    let mut r = String::from_str("API error: ");
    r.append(format_int(status as i64).as_str());
    r
}

fn error_message_of(status: u16, body: &str) -> (r: String)
    ensures
        r@ == error_message(status, body@),
{
    message_from(status, &parse_json(body))
}

/// The message of an error response whose body holds the document `doc`
/// (`None` where the body is not JSON).
pub fn message_from(status: u16, doc: &Option<Json>) -> (r: String)
    ensures
        r@ == message_in(status, *doc),
{
    match doc {
        Some(j) => match j.get("message") {
            Some(m) => match m.as_str() {
                Some(text) => String::from_str(text),
                None => fallback_text(status),
            },
            None => fallback_text(status),
        },
        None => fallback_text(status),
    }
}

/// The error of a response whose status lies outside [200, 300): `Auth` for
/// 401 and 403, `Api` with the body kept for any other.
pub fn status_error(status: u16, body: String) -> (e: Error)
    requires
        !is_success(status),
    ensures
        is_status_error(e, status, body@),
{
    let message = error_message_of(status, body.as_str());
    if status == 401 || status == 403 {
        Error::Auth { status_code: status, message }
    } else {
        Error::Api { status_code: status, message, body }
    }
}

/// The error of a success response whose body has not the expected shape.
pub fn malformed_error(status: u16, body: String) -> (e: Error)
    ensures
        is_malformed_error(e, status, body@),
{
    let mut message = String::from_str("Invalid JSON response: ");
    message.append(take_chars(body.as_str(), SNIPPET_CHARS).as_str());
    Error::Api { status_code: status, message, body }
}

/// The outcome of a response that holds a JSON document of any shape.
pub fn decode_json(status: u16, body: String) -> (r: Result<Json, Error>)
    ensures
        json_outcome(r, status, body@),
{
    if status < 200 || status >= 300 {
        return Err(status_error(status, body));
    }
    match parse_json(body.as_str()) {
        Some(j) => Ok(j),
        None => Err(malformed_error(status, body)),
    }
}

/// The outcome of a response that should hold a page of offers.
pub fn decode_offers(status: u16, body: String) -> (r: Result<OffersResponse, Error>)
    ensures
        offers_outcome(r, status, body@),
{
    if status < 200 || status >= 300 {
        return Err(status_error(status, body));
    }
    match parse_json(body.as_str()) {
        Some(j) => match OffersResponse::from_json(j) {
            Some(page) => Ok(page),
            None => Err(malformed_error(status, body)),
        },
        None => Err(malformed_error(status, body)),
    }
}

/// The outcome of a response that should hold a page of the changes feed.
pub fn decode_changes(status: u16, body: String) -> (r: Result<ChangesResponse, Error>)
    ensures
        changes_outcome(r, status, body@),
{
    if status < 200 || status >= 300 {
        return Err(status_error(status, body));
    }
    match parse_json(body.as_str()) {
        Some(j) => match ChangesResponse::from_json(j) {
            Some(page) => Ok(page),
            None => Err(malformed_error(status, body)),
        },
        None => Err(malformed_error(status, body)),
    }
}

/// The outcome of a response that should report a change cursor; `0` is a
/// cursor like any other.
pub fn decode_change_id(status: u16, body: String) -> (r: Result<i64, Error>)
    ensures
        change_id_outcome(r, status, body@),
{
    if status < 200 || status >= 300 {
        return Err(status_error(status, body));
    }
    let found = match parse_json(body.as_str()) {
        Some(j) => match j.get("change_id") {
            Some(v) => v.as_i64(),
            None => None,
        },
        None => None,
    };
    match found {
        Some(v) => Ok(v),
        None => Err(malformed_error(status, body)),
    }
}

} // verus!
