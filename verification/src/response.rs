//! The normalised reply.

use vstd::prelude::*;
use crate::status::{class_of, Status, StatusView};
use crate::text::text_of;
use hyper::header::Headers;

verus! {

/// `hyper::header::Headers`: the header fields of a message. The client
/// carries them from the transport to the caller and never looks inside.
#[verifier::external_type_specification]
#[verifier::external_body]
pub struct ExHeaders(Headers);

/// A reply as the caller sees it. A reply with an error status is still a
/// reply: the code is there to be inspected.
#[derive(Debug)]
pub struct Response {
    /// The numeric status code.
    pub code: i32,
    /// The symbolic status.
    pub status: Status,
    /// The header fields, as received.
    pub headers: Headers,
    /// The whole body as text, as received.
    pub body: String,
}

/// What a `Response` stands for.
pub struct ResponseView {
    pub code: int,
    pub status: StatusView,
    pub headers: Headers,
    pub body: Seq<char>,
}

impl View for Response {
    type V = ResponseView;

    open spec fn view(&self) -> ResponseView {
        ResponseView {
            code: self.code as int,
            status: self.status@,
            headers: self.headers,
            body: self.body@,
        }
    }
}

impl ResponseView {
    /// The reply made of a status number, header fields and a body text.
    pub open spec fn of(code: u16, headers: Headers, body: Seq<char>) -> ResponseView {
        ResponseView { code: code as int, status: StatusView::of(code), headers, body }
    }
}

impl Response {
    /// Puts a reply together from a status number, the reason phrase that goes
    /// with it, the header fields and the body. No status number is refused.
    pub fn assemble(code: u16, reason: Option<String>, headers: Headers, body: String) -> (res:
        Response)
        ensures
            res@ == (ResponseView {
                code: code as int,
                status: StatusView { class: class_of(code), reason: text_of(reason) },
                headers,
                body: body@,
            }),
    {
        Response { code: code as i32, status: Status::with_reason(code, reason), headers, body }
    }

    /// Puts a reply together from what the transport handed over.
    pub fn of(code: u16, headers: Headers, body: String) -> (res: Response)
        ensures
            res@ == ResponseView::of(code, headers, body@),
            res.code == code,
            res.body@ == body@,
    {
        Response { code: code as i32, status: Status::of(code), headers, body }
    }

    /// The reply as text: exactly its body.
    pub fn render(&self) -> (text: String)
        ensures
            text@ == self.body@,
    {
        self.body.clone()
    }
}

} // verus!
