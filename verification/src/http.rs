//! The compute half of one HTTP round trip.
//!
//! The transport sends requests and hands back a status code and a body;
//! everything decided from those values is verified here: the endpoint
//! paths, the fixed header pairs, the 2xx/other classification, and the
//! decoding of the two body shapes every endpoint shares — a typed
//! success model or the broker's error body.

use vstd::prelude::*;

use crate::account::{account_from_json, spec_account_matches, spec_account_ok, Account};
use crate::error::{http_error, is_success, spec_http_error_content, spec_is_success, ApiError};
use crate::json::{json_of, parse_json, JsonValue};
use crate::orders::{order_from_json, spec_order_matches, spec_order_ok, Order};
use crate::text::{chars_to_string, push_str_chars};

verus! {

/// The four header pairs every request carries: the two credential
/// headers, and JSON content negotiation both ways.
pub fn auth_headers(key_id: &str, secret: &str) -> (r: Vec<(String, String)>)
    ensures
        r@.len() == 4,
        r@[0].0@ == "APCA-API-KEY-ID"@ && r@[0].1@ == key_id@,
        r@[1].0@ == "APCA-API-SECRET-KEY"@ && r@[1].1@ == secret@,
        r@[2].0@ == "Accept"@ && r@[2].1@ == "application/json"@,
        r@[3].0@ == "Content-Type"@ && r@[3].1@ == "application/json"@,
{
    let mut out: Vec<(String, String)> = Vec::new();
    out.push((String::from_str("APCA-API-KEY-ID"), String::from_str(key_id)));
    out.push((String::from_str("APCA-API-SECRET-KEY"), String::from_str(secret)));
    out.push((String::from_str("Accept"), String::from_str("application/json")));
    out.push((String::from_str("Content-Type"), String::from_str("application/json")));
    out
}

/// `base` with `path` appended.
pub fn endpoint_url(base: &str, path: &str) -> (r: String)
    ensures
        r@ == base@ + path@,
{
    let mut out: Vec<char> = Vec::new();
    push_str_chars(&mut out, base);
    push_str_chars(&mut out, path);
    chars_to_string(&out)
}

/// `base` with `path`, a slash, and `id` appended.
pub fn endpoint_url_with_id(base: &str, path: &str, id: &str) -> (r: String)
    ensures
        r@ == base@ + path@ + seq!['/'] + id@,
{
    let mut out: Vec<char> = Vec::new();
    push_str_chars(&mut out, base);
    push_str_chars(&mut out, path);
    out.push('/');
    push_str_chars(&mut out, id);
    chars_to_string(&out)
}

/// Classifies a response: a 2xx status passes, and any other status
/// surfaces as the typed HTTP error built from the body — the body's own
/// `{code, message}` when it parses to that shape, the status and raw
/// text otherwise.
pub fn classify_response(status: u16, body: &str) -> (r: Result<(), ApiError>)
    ensures
        r is Ok <==> spec_is_success(status),
        r matches Err(e) ==> (e matches ApiError::Http { error }
            && spec_http_error_content(error, status, body@)),
{
    if is_success(status) {
        Ok(())
    } else {
        Err(http_error(status, body))
    }
}

/// Parses a 2xx body; anything that is not a JSON document surfaces as
/// [`ApiError::BadBody`] with the raw text.
pub fn body_value(body: &str) -> (r: Result<JsonValue, ApiError>)
    ensures
        match r {
            Ok(v) => json_of(body@) == Some(v),
            Err(e) => json_of(body@) is None && (e matches ApiError::BadBody { raw } && raw@
                == body@),
        },
{
    match parse_json(body) {
        Some(v) => Ok(v),
        None => Err(ApiError::BadBody { raw: String::from_str(body) }),
    }
}

/// Decides one account round trip from its status and body: on 2xx the
/// body must read as an [`Account`]; on any other status the typed HTTP
/// error carrying the body's `{code, message}` (or the status and raw
/// text) is returned.
pub fn decode_account_response(status: u16, body: &str) -> (r: Result<Account, ApiError>)
    ensures
        r is Ok <==> spec_is_success(status) && (match json_of(body@) {
            Some(v) => spec_account_ok(v),
            None => false,
        }),
        match r {
            Ok(a) => spec_account_matches(json_of(body@)->0, a),
            Err(e) => {
                if !spec_is_success(status) {
                    e matches ApiError::Http { error } && spec_http_error_content(
                        error,
                        status,
                        body@,
                    )
                } else {
                    match json_of(body@) {
                        None => e matches ApiError::BadBody { raw } && raw@ == body@,
                        Some(_) => e is Decode,
                    }
                }
            },
        },
{
    classify_response(status, body)?;
    let v = body_value(body)?;
    match account_from_json(&v) {
        Ok(a) => Ok(a),
        Err(e) => Err(ApiError::Decode { error: e }),
    }
}

/// Decides one order round trip from its status and body, as
/// [`decode_account_response`] does for the account.
pub fn decode_order_response(status: u16, body: &str) -> (r: Result<Order, ApiError>)
    ensures
        r is Ok <==> spec_is_success(status) && (match json_of(body@) {
            Some(v) => spec_order_ok(v),
            None => false,
        }),
        match r {
            Ok(o) => spec_order_matches(json_of(body@)->0, o),
            Err(e) => {
                if !spec_is_success(status) {
                    e matches ApiError::Http { error } && spec_http_error_content(
                        error,
                        status,
                        body@,
                    )
                } else {
                    match json_of(body@) {
                        None => e matches ApiError::BadBody { raw } && raw@ == body@,
                        Some(_) => e is Decode,
                    }
                }
            },
        },
{
    classify_response(status, body)?;
    let v = body_value(body)?;
    match order_from_json(&v) {
        Ok(o) => Ok(o),
        Err(e) => Err(ApiError::Decode { error: e }),
    }
}

} // verus!
