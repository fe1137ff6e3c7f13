//! The canned error handlers: stateless functions producing a fixed
//! plain-text response for the standard routing failures.

use vstd::prelude::*;
use crate::request::Request;
use crate::response::{byte_len, ContentType, Response};
use crate::LookupError;

verus! {

/// A plain-text response with the given status code and body, whose
/// content-length header holds exactly the byte length of the body.
pub open spec fn is_plaintext_response(r: Response, status: u16, body: Seq<char>) -> bool {
    &&& r.status == status
    &&& r.body@ == body
    &&& r.content_type == Some(ContentType::Plaintext)
    &&& (r.content_length matches Some(n) && n as nat == byte_len(body))
}

/// The default "not found" handler: ignores the request and produces
/// status 404 with body `page not found`.
pub fn default_404_handler(_request: &Request) -> (result: Response)
    ensures
        is_plaintext_response(result, 404, "page not found"@),
{
    let body = "page not found";
    proof {
        reveal_strlit("page not found");
        vstd::utf8::is_ascii_chars_encode_utf8(body@);
    }
    let length = body.len() as u64;
    Response::new().with_status(404).with_content_length(length).with_content_type(
        ContentType::Plaintext,
    ).with_body(String::from_str(body))
}

/// The default "method not allowed" handler: ignores the request and
/// produces status 405 with body `method not supported`.
pub fn method_not_supported_handler(_request: &Request) -> (result: Response)
    ensures
        is_plaintext_response(result, 405, "method not supported"@),
{
    let body = "method not supported";
    proof {
        reveal_strlit("method not supported");
        vstd::utf8::is_ascii_chars_encode_utf8(body@);
    }
    let length = body.len() as u64;
    Response::new().with_status(405).with_content_length(length).with_content_type(
        ContentType::Plaintext,
    ).with_body(String::from_str(body))
}

/// The default "internal server error" handler: ignores the request and
/// produces status 500 with body `internal server error`.
pub fn internal_server_error_handler(_request: &Request) -> (result: Response)
    ensures
        is_plaintext_response(result, 500, "internal server error"@),
{
    let body = "internal server error";
    proof {
        reveal_strlit("internal server error");
        vstd::utf8::is_ascii_chars_encode_utf8(body@);
    }
    let length = body.len() as u64;
    Response::new().with_status(500).with_content_length(length).with_content_type(
        ContentType::Plaintext,
    ).with_body(String::from_str(body))
}

/// The default "not implemented" handler: ignores the request and
/// produces status 501 with body `not implemented`.
pub fn not_implemented_handler(_request: &Request) -> (result: Response)
    ensures
        is_plaintext_response(result, 501, "not implemented"@),
{
    let body = "not implemented";
    proof {
        reveal_strlit("not implemented");
        vstd::utf8::is_ascii_chars_encode_utf8(body@);
    }
    let length = body.len() as u64;
    Response::new().with_status(501).with_content_length(length).with_content_type(
        ContentType::Plaintext,
    ).with_body(String::from_str(body))
}

/// The builtin fallback of the dispatch adapter: a plain-text response
/// tagged with the status corresponding to the lookup error — 404 for
/// `NotFound`, 405 for `MethodNotAllowed`.
pub fn default_error_response(error: LookupError) -> (result: Response)
    ensures
        is_plaintext_response(
            result,
            if error is NotFound {
                404u16
            } else {
                405u16
            },
            "Routing error: page not found"@,
        ),
{
    let body = "Routing error: page not found";
    proof {
        reveal_strlit("Routing error: page not found");
        vstd::utf8::is_ascii_chars_encode_utf8(body@);
    }
    let length = body.len() as u64;
    let status: u16 = match error {
        LookupError::NotFound => 404,
        LookupError::MethodNotAllowed => 405,
    };
    Response::new().with_status(status).with_content_length(length).with_content_type(
        ContentType::Plaintext,
    ).with_body(String::from_str(body))
}

} // verus!
