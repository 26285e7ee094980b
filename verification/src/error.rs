//! The one error type of the client, and the three outside errors it wraps.

use vstd::prelude::*;

verus! {

/// `url::ParseError`: why a string is no absolute URL. Nothing is claimed of
/// its contents.
#[verifier::external_type_specification]
#[verifier::external_body]
pub struct ExParseError(url::ParseError);

/// `hyper::Error`: why the transport refused a request. Nothing is claimed of
/// its contents.
#[verifier::external_type_specification]
#[verifier::external_body]
pub struct ExHyperError(hyper::Error);

/// `std::io::Error`: why bytes could not be written or read. Nothing is
/// claimed of its contents.
#[verifier::external_type_specification]
#[verifier::external_body]
pub struct ExIoError(std::io::Error);

/// Why a call failed: exactly one of three origins, each carrying the error
/// that the collaborator reported, untouched.
#[derive(Debug)]
pub enum RestError {
    /// The URL string is not a syntactically valid absolute URL.
    UrlParseError(url::ParseError),
    /// The transport refused to construct, begin or send the request.
    HttpRequestError(hyper::Error),
    /// Writing the body or reading the reply failed.
    HttpIoError(std::io::Error),
}

} // verus!
