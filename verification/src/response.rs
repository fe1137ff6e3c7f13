//! The response value the default handlers of this crate produce.

use vstd::prelude::*;

verus! {

/// The content type a response declares, when it declares one.
/// This crate's own handlers only ever produce plain text.
#[derive(Clone, Copy, Debug, PartialEq, Eq, Structural)]
pub enum ContentType {
    Plaintext,
}

/// The byte length of a body, that is, the length of its UTF-8 encoding.
pub open spec fn byte_len(body: Seq<char>) -> nat {
    vstd::utf8::encode_utf8(body).len()
}

/// An HTTP response as this crate models it: a status code, the optional
/// content-length and content-type headers, and a body. The surrounding
/// server turns this value into its own wire representation.
pub struct Response {
    pub status: u16,
    pub content_length: Option<u64>,
    pub content_type: Option<ContentType>,
    pub body: String,
}

impl Response {
    /// An empty response: status 200, no headers, empty body.
    pub fn new() -> (result: Response)
        ensures
            result.status == 200,
            result.content_length is None,
            result.content_type is None,
            result.body@ == Seq::<char>::empty(),
    {
        Response { status: 200, content_length: None, content_type: None, body: String::new() }
    }

    /// The same response with the given status code.
    pub fn with_status(self, status: u16) -> (result: Response)
        ensures
            result.status == status,
            result.content_length == self.content_length,
            result.content_type == self.content_type,
            result.body@ == self.body@,
    {
        Response { status, ..self }
    }

    /// The same response with a content-length header of `length` bytes.
    pub fn with_content_length(self, length: u64) -> (result: Response)
        ensures
            result.status == self.status,
            result.content_length == Some(length),
            result.content_type == self.content_type,
            result.body@ == self.body@,
    {
        Response { content_length: Some(length), ..self }
    }

    /// The same response with the given content-type header.
    pub fn with_content_type(self, content_type: ContentType) -> (result: Response)
        ensures
            result.status == self.status,
            result.content_length == self.content_length,
            result.content_type == Some(content_type),
            result.body@ == self.body@,
    {
        Response { content_type: Some(content_type), ..self }
    }

    /// The same response with the given body.
    pub fn with_body(self, body: String) -> (result: Response)
        ensures
            result.status == self.status,
            result.content_length == self.content_length,
            result.content_type == self.content_type,
            result.body@ == body@,
    {
        Response { body, ..self }
    }
}

} // verus!
