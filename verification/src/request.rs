//! The outbound request: what is sent, before anything is sent.

use vstd::prelude::*;
use vstd::utf8::encode_utf8;
use crate::method::Method;
use crate::target::{Target, TargetView};
use crate::text::{owned_text, str_text_of, text_of};

verus! {

/// One fully formed outbound request.
#[derive(Clone, Debug)]
pub struct Request {
    pub method: Method,
    /// Where the request goes, query parameters already applied.
    pub target: Target,
    /// The `Content-Type` header; unset when `None`.
    pub content_type: Option<String>,
    /// The payload, if the request carries one.
    pub body: Option<String>,
}

/// What a `Request` stands for.
pub struct RequestView {
    pub method: Method,
    pub target: TargetView,
    pub content_type: Option<Seq<char>>,
    pub body: Option<Seq<char>>,
}

impl View for Request {
    type V = RequestView;

    open spec fn view(&self) -> RequestView {
        RequestView {
            method: self.method,
            target: self.target@,
            content_type: text_of(self.content_type),
            body: text_of(self.body),
        }
    }
}

/// The number of bytes a text occupies on the wire.
pub open spec fn byte_length(text: Seq<char>) -> nat {
    encode_utf8(text).len()
}

impl RequestView {
    /// The request that a method, a parsed URL, an optional replacement query,
    /// an optional body and an optional content type make up. A replacement
    /// query overwrites the URL's own; without one the URL is left as parsed.
    pub open spec fn assemble(
        method: Method,
        target: TargetView,
        query: Option<Seq<char>>,
        body: Option<Seq<char>>,
        content_type: Option<Seq<char>>,
    ) -> RequestView {
        RequestView {
            method,
            target: match query {
                Some(q) => target.with_query(q),
                None => target,
            },
            content_type,
            body,
        }
    }

    /// The value of the `Content-Length` header: the body's length in bytes,
    /// and zero when there is no body. The header is never left out.
    pub open spec fn content_length(self) -> nat {
        match self.body {
            Some(b) => byte_length(b),
            None => 0,
        }
    }
}

impl Request {
    /// Puts a request together from its parts.
    pub fn assemble(
        method: Method,
        target: Target,
        query: Option<String>,
        body: Option<&str>,
        content_type: Option<&str>,
    ) -> (req: Request)
        ensures
            req@ == RequestView::assemble(
                method,
                target@,
                text_of(query),
                str_text_of(body),
                str_text_of(content_type),
            ),
            query is Some ==> req.target@.query == text_of(query),
            query is None ==> req.target@ == target@,
            req@.content_length() == match body {
                Some(b) => byte_length(b@),
                None => 0,
            },
            req.content_type is Some <==> content_type is Some,
    {
        let target = match query {
            Some(q) => target.with_query(q),
            None => target,
        };
        Request { method, target, content_type: owned_text(content_type), body: owned_text(body) }
    }

    /// The `Content-Length` header of this request.
    pub fn content_length(&self) -> (n: u64)
        ensures
            n == self@.content_length(),
            self.body is None ==> n == 0,
    {
        match &self.body {
            Some(b) => b.as_str().as_bytes().len() as u64,
            None => 0,
        }
    }

    /// The URL of this request as one string.
    pub fn url(&self) -> (res: String)
        ensures
            res@ == self@.target.href(),
    {
        self.target.href()
    }
}

} // verus!
