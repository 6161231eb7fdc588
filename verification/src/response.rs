//! Responses and their wire form.

use vstd::prelude::*;
use vstd::string::StringExecFns;
use vstd::string::StrSliceExecFns;
use vstd::utf8::encode_utf8;
use crate::text::{decimal, push_decimal};

verus! {

/// Status code of a response. Any number is accepted: none is held against
/// the codes that HTTP defines.
pub type HTTPStatus = u32;

/// What a response is: its status and, where it has one, its body.
pub struct ResponseModel {
    pub status: HTTPStatus,
    pub content: Option<Seq<char>>,
}

/// The text of a response on the wire.
///
/// With a body, the status line is followed by a `Content-Length` header that
/// gives the body's length in UTF-8 bytes, an empty line and the body; without
/// one, by the empty line alone.
pub open spec fn response_text(r: ResponseModel) -> Seq<char> {
    match r.content {
        Some(body) => "HTTP/1.1 "@ + decimal(r.status as nat) + "\r\nContent-Length: "@
            + decimal(encode_utf8(body).len()) + "\r\n\r\n"@ + body,
        None => "HTTP/1.1 "@ + decimal(r.status as nat) + "\r\n\r\n"@,
    }
}

/// The bytes of a response on the wire: its text in UTF-8.
pub open spec fn response_bytes(r: ResponseModel) -> Seq<u8> {
    encode_utf8(response_text(r))
}

/// Response returned by a handle: a status and optionally content.
///
/// Only UTF-8 content is supported, and no headers of the caller's own.
pub struct HTTPResponse {
    status: HTTPStatus,
    content: Option<String>,
}

impl View for HTTPResponse {
    type V = ResponseModel;

    closed spec fn view(&self) -> ResponseModel {
        ResponseModel {
            status: self.status,
            content: match self.content {
                Some(body) => Some(body@),
                None => None,
            },
        }
    }
}

impl HTTPResponse {
    /// A response with the given status and no content.
    pub fn new(status: HTTPStatus) -> (r: HTTPResponse)
        ensures
            r@ == (ResponseModel { status, content: None }),
    {
        HTTPResponse { status, content: None }
    }

    /// The same response with `content` as its body, in place of any it had.
    pub fn with_content(self, content: &str) -> (r: HTTPResponse)
        ensures
            r@ == (ResponseModel { status: self@.status, content: Some(content@) }),
    {
        HTTPResponse { status: self.status, content: Some(String::from_str(content)) }
    }

    /// The status of this response.
    pub fn status(&self) -> (s: HTTPStatus)
        ensures
            s == self@.status,
    {
        self.status
    }

    /// The body of this response, if it has one.
    pub fn content(&self) -> (c: Option<&str>)
        ensures
            match c {
                Some(body) => self@.content == Some(body@),
                None => self@.content.is_none(),
            },
    {
        match &self.content {
            Some(body) => Some(body.as_str()),
            None => None,
        }
    }

    /// The text of this response on the wire.
    pub fn to_string(&self) -> (s: String)
        ensures
            s@ == response_text(self@),
    {
        let mut s = String::from_str("HTTP/1.1 ");
        push_decimal(&mut s, self.status as u64);
        match &self.content {
            Some(body) => {
                s.append("\r\nContent-Length: ");
                let length: usize = body.as_str().as_bytes().len();
                push_decimal(&mut s, length as u64);
                s.append("\r\n\r\n");
                s.append(body.as_str());
            },
            None => {
                s.append("\r\n\r\n");
            },
        }
        assert(s@ =~= response_text(self@));
        s
    }

    /// The bytes of this response on the wire.
    pub fn to_bytes(&self) -> (bytes: Vec<u8>)
        ensures
            bytes@ == response_bytes(self@),
    {
        let s = self.to_string();
        s.as_str().as_bytes_vec()
    }
}

} // verus!
