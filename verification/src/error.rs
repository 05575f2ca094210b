//! Typed errors.
//!
//! A failed call surfaces as one of three things: a transport failure
//! before any response arrived, a non-2xx response carrying the broker's
//! `{code, message}` error body (or a synthetic one built from the status
//! and raw text when that body is not JSON), or a 2xx response whose body
//! did not match the expected schema.

use vstd::prelude::*;

use crate::decode::{
    get_str, get_uint, spec_str_field, spec_uint_field, DecodeError,
};
use crate::json::{json_of, parse_json, JsonValue};
use crate::numtext::{dec_digits, push_dec_u64};
use crate::text::{chars_to_string, push_str_chars};

verus! {

/// The broker's structured error body: `{"code": ..., "message": ...}`.
#[derive(Debug, Clone, PartialEq, Eq)]
pub struct ErrorResponse {
    code: u32,
    message: String,
}

impl ErrorResponse {
    pub closed spec fn spec_code(self) -> u32 {
        self.code
    }

    pub closed spec fn spec_message(self) -> Seq<char> {
        self.message@
    }

    pub fn new(code: u32, message: String) -> (r: ErrorResponse)
        ensures
            r.spec_code() == code,
            r.spec_message() == message@,
    {
        ErrorResponse { code, message }
    }

    pub fn code(&self) -> (r: u32)
        ensures
            r == self.spec_code(),
    {
        self.code
    }

    pub fn message(&self) -> (r: &String)
        ensures
            r@ == self.spec_message(),
    {
        &self.message
    }
}

/// How one character appears inside the displayed message: the named
/// escapes for quote, backslash and the usual control characters; any
/// other character stands for itself.
pub open spec fn display_esc(c: char) -> Seq<char> {
    if c == '"' {
        seq!['\\', '"']
    } else if c == '\\' {
        seq!['\\', '\\']
    } else if c == '\n' {
        seq!['\\', 'n']
    } else if c == '\r' {
        seq!['\\', 'r']
    } else if c == '\t' {
        seq!['\\', 't']
    } else {
        seq![c]
    }
}

/// A message with every display escape applied.
pub open spec fn display_escape(s: Seq<char>) -> Seq<char>
    decreases s.len(),
{
    if s.len() == 0 {
        Seq::empty()
    } else {
        display_esc(s[0]) + display_escape(s.skip(1))
    }
}

/// The one-line form of an error response:
/// `code: <code>, message: "<message>"`.
pub open spec fn error_response_text(code: u32, message: Seq<char>) -> Seq<char> {
    "code: "@ + dec_digits(code as nat) + ", message: \""@ + display_escape(message) + "\""@
}

proof fn lemma_display_escape_snoc(s: Seq<char>, c: char)
    ensures
        display_escape(s.push(c)) == display_escape(s) + display_esc(c),
    decreases s.len(),
{
    let t = s.push(c);
    if s.len() == 0 {
        assert(t[0] == c);
        assert(t.skip(1) =~= Seq::<char>::empty());
        assert(display_escape(t.skip(1)) == Seq::<char>::empty());
        assert(display_escape(t) =~= display_esc(c));
        assert(display_escape(s) + display_esc(c) =~= display_esc(c));
    } else {
        assert(t[0] == s[0]);
        assert(t.skip(1) =~= s.skip(1).push(c));
        lemma_display_escape_snoc(s.skip(1), c);
        assert(display_escape(t) =~= display_escape(s) + display_esc(c));
    }
}

fn push_display_esc(out: &mut Vec<char>, c: char)
    ensures
        final(out)@ == old(out)@ + display_esc(c),
{
    if c == '"' {
        out.push('\\');
        out.push('"');
    } else if c == '\\' {
        out.push('\\');
        out.push('\\');
    } else if c == '\n' {
        out.push('\\');
        out.push('n');
    } else if c == '\r' {
        out.push('\\');
        out.push('r');
    } else if c == '\t' {
        out.push('\\');
        out.push('t');
    } else {
        out.push(c);
    }
    proof {
        assert(out@ =~= old(out)@ + display_esc(c));
    }
}

impl ErrorResponse {
    /// The one-line display form, exactly
    /// `code: <code>, message: "<message>"`.
    #[verifier::loop_isolation(false)]
    pub fn display_string(&self) -> (r: String)
        ensures
            r@ == error_response_text(self.spec_code(), self.spec_message()),
    {
        let mut out: Vec<char> = Vec::new();
        push_str_chars(&mut out, "code: ");
        push_dec_u64(&mut out, self.code as u64);
        push_str_chars(&mut out, ", message: \"");
        let msg = self.message.as_str();
        let n = msg.unicode_len();
        let mut i: usize = 0;
        let ghost mid = out@;
        while i < n
            invariant
                i <= n,
                n == msg@.len(),
                out@ == mid + display_escape(msg@.subrange(0, i as int)),
            decreases n - i,
        {
            let c = msg.get_char(i);
            push_display_esc(&mut out, c);
            i = i + 1;
            proof {
                assert(msg@.subrange(0, i as int) =~= msg@.subrange(0, i - 1).push(
                    msg@[i - 1],
                ));
                lemma_display_escape_snoc(msg@.subrange(0, i - 1), msg@[i - 1]);
                assert(out@ =~= mid + display_escape(msg@.subrange(0, i as int)));
            }
        }
        push_str_chars(&mut out, "\"");
        proof {
            assert(msg@.subrange(0, n as int) =~= msg@);
            assert(out@ =~= error_response_text(self.spec_code(), self.spec_message()));
        }
        chars_to_string(&out)
    }
}

/// Whether a parsed value is a well-formed error body.
pub open spec fn spec_error_response_ok(v: JsonValue) -> bool {
    &&& spec_uint_field(v, "code"@, u32::MAX as nat) is Some
    &&& spec_str_field(v, "message"@) is Some
}

/// Reads the broker's `{code, message}` error body.
pub fn error_response_from_json(v: &JsonValue) -> (r: Result<ErrorResponse, DecodeError>)
    ensures
        r is Ok <==> spec_error_response_ok(*v),
        match r {
            Ok(e) => {
                &&& e.spec_code() as nat == spec_uint_field(*v, "code"@, u32::MAX as nat)->0
                &&& e.spec_message() == spec_str_field(*v, "message"@)->0
            },
            Err(_) => true,
        },
{
    let code = get_uint(v, "code", u32::MAX as u64)?;
    let message = get_str(v, "message")?;
    Ok(ErrorResponse::new(code as u32, message))
}

/// Why a call failed: the transport failed before any response; the
/// broker answered with a non-2xx status; or a 2xx body did not match
/// the schema.
#[derive(Debug, Clone, PartialEq, Eq)]
pub enum ApiError {
    /// A connection, name-resolution or timeout failure; no response was
    /// received.
    Transport { detail: String },
    /// A non-2xx response, with the broker's error body when it parsed
    /// and a synthetic one from the status and raw text otherwise.
    Http { error: ErrorResponse },
    /// A 2xx response whose body is valid JSON of the wrong shape.
    Decode { error: DecodeError },
    /// A 2xx response whose body is not JSON at all.
    BadBody { raw: String },
}

/// Whether a status code is a success (2xx) status.
pub open spec fn spec_is_success(status: u16) -> bool {
    200 <= status < 300
}

pub fn is_success(status: u16) -> (r: bool)
    ensures
        r == spec_is_success(status),
{
    200 <= status && status < 300
}

/// What the typed error of a non-2xx response holds, determined by the
/// status and the body text alone: the body's own `code` and `message`
/// verbatim when the body parses to that shape, and the status code with
/// the raw text otherwise.
pub open spec fn spec_http_error_content(e: ErrorResponse, status: u16, body: Seq<char>) -> bool {
    match json_of(body) {
        Some(v) => {
            if spec_error_response_ok(v) {
                &&& e.spec_code() as nat == spec_uint_field(v, "code"@, u32::MAX as nat)->0
                &&& e.spec_message() == spec_str_field(v, "message"@)->0
            } else {
                e.spec_code() == status as u32 && e.spec_message() == body
            }
        },
        None => e.spec_code() == status as u32 && e.spec_message() == body,
    }
}

/// The error a non-2xx response surfaces as: the broker's `{code,
/// message}` body when it parses, a synthetic error response carrying
/// the status code and the raw text otherwise.
pub fn http_error(status: u16, body: &str) -> (r: ApiError)
    ensures
        (r matches ApiError::Http { error } && spec_http_error_content(error, status, body@)),
{
    match parse_json(body) {
        Some(v) => match error_response_from_json(&v) {
            Ok(e) => ApiError::Http { error: e },
            Err(_) => ApiError::Http {
                error: ErrorResponse::new(status as u32, String::from_str(body)),
            },
        },
        None => ApiError::Http {
            error: ErrorResponse::new(status as u32, String::from_str(body)),
        },
    }
}

} // verus!
