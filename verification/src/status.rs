//! The symbolic side of a status code: its class and its reason phrase.

use vstd::prelude::*;
use crate::text::text_of;
use hyper::status::StatusCode;

verus! {

/// The class of a status code, told by its hundreds.
#[derive(Clone, Copy, Debug, PartialEq, Eq, Structural)]
pub enum StatusClass {
    /// 100 to 199.
    Informational,
    /// 200 to 299.
    Success,
    /// 300 to 399.
    Redirection,
    /// 400 to 499.
    ClientError,
    /// 500 to 599.
    ServerError,
    /// Anything else.
    NoClass,
}

/// The class a status code belongs to.
pub open spec fn class_of(code: u16) -> StatusClass {
    if 100 <= code <= 199 {
        StatusClass::Informational
    } else if 200 <= code <= 299 {
        StatusClass::Success
    } else if 300 <= code <= 399 {
        StatusClass::Redirection
    } else if 400 <= code <= 499 {
        StatusClass::ClientError
    } else if 500 <= code <= 599 {
        StatusClass::ServerError
    } else {
        StatusClass::NoClass
    }
}

/// The reason phrase that `hyper::status::StatusCode::canonical_reason` gives
/// for the status with this number, if it knows one.
pub uninterp spec fn canonical_reason(code: u16) -> Option<Seq<char>>;

/// Looks the reason phrase up: `StatusCode::from_u16`, then
/// `StatusCode::canonical_reason`. Trusted: the phrase is the one
/// `canonical_reason` names for this number.
#[verifier::external_body]
pub(crate) fn reason_phrase(code: u16) -> (res: Option<String>)
    ensures
        text_of(res) == canonical_reason(code),
{
    StatusCode::from_u16(code).canonical_reason().map(String::from)
}

/// The symbolic status of a response.
#[derive(Clone, Debug)]
pub struct Status {
    pub class: StatusClass,
    /// The canonical reason phrase; `None` for a number that has none.
    pub reason: Option<String>,
}

/// What a `Status` stands for.
pub struct StatusView {
    pub class: StatusClass,
    pub reason: Option<Seq<char>>,
}

impl View for Status {
    type V = StatusView;

    open spec fn view(&self) -> StatusView {
        StatusView { class: self.class, reason: text_of(self.reason) }
    }
}

impl StatusView {
    /// The status of a number: its class, and the reason phrase on record.
    pub open spec fn of(code: u16) -> StatusView {
        StatusView { class: class_of(code), reason: canonical_reason(code) }
    }
}

impl Status {
    /// The class of a status code.
    pub fn classify(code: u16) -> (class: StatusClass)
        ensures
            class == class_of(code),
    {
        if code < 100 {
            StatusClass::NoClass
        } else if code < 200 {
            StatusClass::Informational
        } else if code < 300 {
            StatusClass::Success
        } else if code < 400 {
            StatusClass::Redirection
        } else if code < 500 {
            StatusClass::ClientError
        } else if code < 600 {
            StatusClass::ServerError
        } else {
            StatusClass::NoClass
        }
    }

    /// The status of a number whose reason phrase is already in hand.
    pub fn with_reason(code: u16, reason: Option<String>) -> (status: Status)
        ensures
            status@ == (StatusView { class: class_of(code), reason: text_of(reason) }),
    {
        Status { class: Status::classify(code), reason }
    }

    /// The status of a number.
    pub fn of(code: u16) -> (status: Status)
        ensures
            status@ == StatusView::of(code),
    {
        Status::with_reason(code, reason_phrase(code))
    }
}

} // verus!
