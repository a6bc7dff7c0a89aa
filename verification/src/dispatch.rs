//! The single chokepoint through which every endpoint's HTTP response
//! passes: status branching, decoding of the server's structured error
//! body, and the synthesized fallback message.

use vstd::prelude::*;
use vstd::string::StringExecFns;
use crate::codec::{req_str_field, req_str_ok, req_str_val};
use crate::error::KhromaError;
use crate::models::ErrorResponse;
use crate::json::{
    json_as_object, json_of_text, json_of_value, json_parse, Json,
};
use crate::text::{dec_nat, u64_to_string};

verus! {

/// True for the HTTP statuses the server uses for success.
pub open spec fn is_success(status: u16) -> bool {
    200 <= status < 300
}

/// The message the server's structured error body carries: present
/// exactly when the body is a JSON object with string fields `error`
/// and `message`.
pub open spec fn error_body_message(body: Seq<char>) -> Option<Seq<char>> {
    match json_of_text(body) {
        Some(Json::Obj(m)) => if m.dom().contains("error"@) && m[("error"@)] is Str
            && m.dom().contains("message"@) && m[("message"@)] is Str {
            Some(m[("message"@)]->Str_0)
        } else {
            None
        },
        _ => None,
    }
}

/// The canonical reason phrase the transport's status type prints
/// beside a code; a code without a registered phrase renders as
/// `<unknown status code>`.
pub open spec fn reason_phrase(status: u16) -> Seq<char> {
    if status == 100 {
        "Continue"@
    } else if status == 101 {
        "Switching Protocols"@
    } else if status == 102 {
        "Processing"@
    } else if status == 103 {
        "Early Hints"@
    } else if status == 200 {
        "OK"@
    } else if status == 201 {
        "Created"@
    } else if status == 202 {
        "Accepted"@
    } else if status == 203 {
        "Non Authoritative Information"@
    } else if status == 204 {
        "No Content"@
    } else if status == 205 {
        "Reset Content"@
    } else if status == 206 {
        "Partial Content"@
    } else if status == 207 {
        "Multi-Status"@
    } else if status == 208 {
        "Already Reported"@
    } else if status == 226 {
        "IM Used"@
    } else if status == 300 {
        "Multiple Choices"@
    } else if status == 301 {
        "Moved Permanently"@
    } else if status == 302 {
        "Found"@
    } else if status == 303 {
        "See Other"@
    } else if status == 304 {
        "Not Modified"@
    } else if status == 305 {
        "Use Proxy"@
    } else if status == 307 {
        "Temporary Redirect"@
    } else if status == 308 {
        "Permanent Redirect"@
    } else if status == 400 {
        "Bad Request"@
    } else if status == 401 {
        "Unauthorized"@
    } else if status == 402 {
        "Payment Required"@
    } else if status == 403 {
        "Forbidden"@
    } else if status == 404 {
        "Not Found"@
    } else if status == 405 {
        "Method Not Allowed"@
    } else if status == 406 {
        "Not Acceptable"@
    } else if status == 407 {
        "Proxy Authentication Required"@
    } else if status == 408 {
        "Request Timeout"@
    } else if status == 409 {
        "Conflict"@
    } else if status == 410 {
        "Gone"@
    } else if status == 411 {
        "Length Required"@
    } else if status == 412 {
        "Precondition Failed"@
    } else if status == 413 {
        "Payload Too Large"@
    } else if status == 414 {
        "URI Too Long"@
    } else if status == 415 {
        "Unsupported Media Type"@
    } else if status == 416 {
        "Range Not Satisfiable"@
    } else if status == 417 {
        "Expectation Failed"@
    } else if status == 418 {
        "I'm a teapot"@
    } else if status == 421 {
        "Misdirected Request"@
    } else if status == 422 {
        "Unprocessable Entity"@
    } else if status == 423 {
        "Locked"@
    } else if status == 424 {
        "Failed Dependency"@
    } else if status == 425 {
        "Too Early"@
    } else if status == 426 {
        "Upgrade Required"@
    } else if status == 428 {
        "Precondition Required"@
    } else if status == 429 {
        "Too Many Requests"@
    } else if status == 431 {
        "Request Header Fields Too Large"@
    } else if status == 451 {
        "Unavailable For Legal Reasons"@
    } else if status == 500 {
        "Internal Server Error"@
    } else if status == 501 {
        "Not Implemented"@
    } else if status == 502 {
        "Bad Gateway"@
    } else if status == 503 {
        "Service Unavailable"@
    } else if status == 504 {
        "Gateway Timeout"@
    } else if status == 505 {
        "HTTP Version Not Supported"@
    } else if status == 506 {
        "Variant Also Negotiates"@
    } else if status == 507 {
        "Insufficient Storage"@
    } else if status == 508 {
        "Loop Detected"@
    } else if status == 510 {
        "Not Extended"@
    } else if status == 511 {
        "Network Authentication Required"@
    } else {
        "<unknown status code>"@
    }
}

fn reason_phrase_str(status: u16) -> (r: &'static str)
    ensures
        r@ == reason_phrase(status),
{
    if status == 100 {
        "Continue"
    } else if status == 101 {
        "Switching Protocols"
    } else if status == 102 {
        "Processing"
    } else if status == 103 {
        "Early Hints"
    } else if status == 200 {
        "OK"
    } else if status == 201 {
        "Created"
    } else if status == 202 {
        "Accepted"
    } else if status == 203 {
        "Non Authoritative Information"
    } else if status == 204 {
        "No Content"
    } else if status == 205 {
        "Reset Content"
    } else if status == 206 {
        "Partial Content"
    } else if status == 207 {
        "Multi-Status"
    } else if status == 208 {
        "Already Reported"
    } else if status == 226 {
        "IM Used"
    } else if status == 300 {
        "Multiple Choices"
    } else if status == 301 {
        "Moved Permanently"
    } else if status == 302 {
        "Found"
    } else if status == 303 {
        "See Other"
    } else if status == 304 {
        "Not Modified"
    } else if status == 305 {
        "Use Proxy"
    } else if status == 307 {
        "Temporary Redirect"
    } else if status == 308 {
        "Permanent Redirect"
    } else if status == 400 {
        "Bad Request"
    } else if status == 401 {
        "Unauthorized"
    } else if status == 402 {
        "Payment Required"
    } else if status == 403 {
        "Forbidden"
    } else if status == 404 {
        "Not Found"
    } else if status == 405 {
        "Method Not Allowed"
    } else if status == 406 {
        "Not Acceptable"
    } else if status == 407 {
        "Proxy Authentication Required"
    } else if status == 408 {
        "Request Timeout"
    } else if status == 409 {
        "Conflict"
    } else if status == 410 {
        "Gone"
    } else if status == 411 {
        "Length Required"
    } else if status == 412 {
        "Precondition Failed"
    } else if status == 413 {
        "Payload Too Large"
    } else if status == 414 {
        "URI Too Long"
    } else if status == 415 {
        "Unsupported Media Type"
    } else if status == 416 {
        "Range Not Satisfiable"
    } else if status == 417 {
        "Expectation Failed"
    } else if status == 418 {
        "I'm a teapot"
    } else if status == 421 {
        "Misdirected Request"
    } else if status == 422 {
        "Unprocessable Entity"
    } else if status == 423 {
        "Locked"
    } else if status == 424 {
        "Failed Dependency"
    } else if status == 425 {
        "Too Early"
    } else if status == 426 {
        "Upgrade Required"
    } else if status == 428 {
        "Precondition Required"
    } else if status == 429 {
        "Too Many Requests"
    } else if status == 431 {
        "Request Header Fields Too Large"
    } else if status == 451 {
        "Unavailable For Legal Reasons"
    } else if status == 500 {
        "Internal Server Error"
    } else if status == 501 {
        "Not Implemented"
    } else if status == 502 {
        "Bad Gateway"
    } else if status == 503 {
        "Service Unavailable"
    } else if status == 504 {
        "Gateway Timeout"
    } else if status == 505 {
        "HTTP Version Not Supported"
    } else if status == 506 {
        "Variant Also Negotiates"
    } else if status == 507 {
        "Insufficient Storage"
    } else if status == 508 {
        "Loop Detected"
    } else if status == 510 {
        "Not Extended"
    } else if status == 511 {
        "Network Authentication Required"
    } else {
        "<unknown status code>"
    }
}

/// The message synthesized from the status code alone, used when the
/// error body cannot be read: the code rendered as the transport's
/// status type prints it, decimal code then canonical reason phrase.
pub open spec fn synthesized_message(status: u16) -> Seq<char> {
    "Failed to parse error response. Status: "@ + dec_nat(status as nat) + " "@ + reason_phrase(
        status,
    )
}

/// The message an `Api` error carries for a given failure response.
pub open spec fn api_message(status: u16, body: Seq<char>) -> Seq<char> {
    match error_body_message(body) {
        Some(m) => m,
        None => synthesized_message(status),
    }
}

fn synthesized(status: u16) -> (r: String)
    ensures
        r@ == synthesized_message(status),
{
    let mut s = String::from_str("Failed to parse error response. Status: ");
    s.append(u64_to_string(status as u64).as_str());
    s.append(" ");
    s.append(reason_phrase_str(status));
    proof {
        assert(s@ =~= synthesized_message(status));
    }
    s
}

/// Reads the server's structured error body: a JSON object with string
/// fields `error` and `message`.
pub fn decode_error_response(v: &serde_json::Value) -> (r: Result<ErrorResponse, ()>)
    ensures
        r is Ok <==> (json_of_value(*v) is Obj && req_str_ok(json_of_value(*v)->Obj_0, "error"@)
            && req_str_ok(json_of_value(*v)->Obj_0, "message"@)),
        r matches Ok(t) ==> t.error@ == req_str_val(json_of_value(*v)->Obj_0, "error"@)
            && t.message@ == req_str_val(json_of_value(*v)->Obj_0, "message"@),
{
    match json_as_object(v) {
        Some(m) => {
            let error = req_str_field(m, "error")?;
            let message = req_str_field(m, "message")?;
            Ok(ErrorResponse { error, message })
        },
        None => Err(()),
    }
}

/// Extracts the server-supplied message from a failure body, or
/// synthesizes one from the status code.
fn error_message(status: u16, body: &str) -> (r: String)
    ensures
        r@ == api_message(status, body@),
{
    match json_parse(body) {
        Ok(v) => match decode_error_response(&v) {
            Ok(err_res) => err_res.message,
            Err(_) => synthesized(status),
        },
        Err(_) => synthesized(status),
    }
}

/// Structured dispatch: on a success status the body must be a JSON
/// document, handed back as a value for the endpoint's decoder; on a
/// failure status the result is an `Api` error carrying the status and
/// the extracted or synthesized message.
pub fn handle_response(status: u16, body: &str) -> (r: Result<serde_json::Value, KhromaError>)
    ensures
        is_success(status) ==> (match r {
            Ok(v) => json_of_text(body@) == Some(json_of_value(v)),
            Err(e) => json_of_text(body@) is None && e is Decode,
        }),
        !is_success(status) ==> (r matches Err(KhromaError::Api { status: st, message: m })
            && st == status && m@ == api_message(status, body@)),
{
    if 200 <= status && status < 300 {
        match json_parse(body) {
            Ok(v) => Ok(v),
            Err(detail) => {
                let mut msg = String::from_str("Failed to deserialize successful response: ");
                msg.append(detail.as_str());
                Err(KhromaError::Decode(msg))
            },
        }
    } else {
        Err(KhromaError::Api { status, message: error_message(status, body) })
    }
}

/// Plain-text dispatch: on a success status the body is handed back as
/// text; the failure path is the same as for structured dispatch.
pub fn handle_text_response(status: u16, body: &str) -> (r: Result<String, KhromaError>)
    ensures
        is_success(status) ==> (r matches Ok(t) && t@ == body@),
        !is_success(status) ==> (r matches Err(KhromaError::Api { status: st, message: m })
            && st == status && m@ == api_message(status, body@)),
{
    if 200 <= status && status < 300 {
        Ok(body.to_owned())
    } else {
        Err(KhromaError::Api { status, message: error_message(status, body) })
    }
}

/// A failure response whose body is a JSON object with string `error`
/// and `message` fields yields the server's message verbatim.
pub proof fn lemma_api_message_verbatim(status: u16, body: Seq<char>)
    requires
        error_body_message(body) is Some,
    ensures
        api_message(status, body) == error_body_message(body)->Some_0,
{
}

/// A failure response whose body cannot be read as a structured error
/// yields the message synthesized from the status code alone.
pub proof fn lemma_api_message_synthesized(status: u16, body: Seq<char>)
    requires
        error_body_message(body) is None,
    ensures
        api_message(status, body) == synthesized_message(status),
{
}

/// What a body of a boolean text response denotes.
pub open spec fn bool_of_text(s: Seq<char>) -> Option<bool> {
    if s == "true"@ {
        Some(true)
    } else if s == "false"@ {
        Some(false)
    } else {
        None
    }
}

/// Reads a plain-text body as a literal boolean, exactly `true` or
/// `false`.
pub fn parse_bool_text(body: &str) -> (r: Result<bool, KhromaError>)
    ensures
        match bool_of_text(body@) {
            Some(b) => r matches Ok(rb) && rb == b,
            None => r matches Err(e) && e is Decode,
        },
{
    if crate::text::str_eq(body, "true") {
        Ok(true)
    } else if crate::text::str_eq(body, "false") {
        Ok(false)
    } else {
        Err(KhromaError::Decode(String::from_str("expected a literal boolean body")))
    }
}

} // verus!
