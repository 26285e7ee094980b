//! The entry points: one general builder and a convenience call per verb.

use vstd::prelude::*;
use crate::error::RestError;
use crate::form::{form_urlencoded, opt_pairs_text, pairs_text, serialize_pairs, FORM_CONTENT_TYPE};
use crate::method::Method;
use crate::request::{byte_length, Request, RequestView};
use crate::target::{parse_url, url_parse};
use crate::text::str_text_of;

verus! {

/// The client. It holds no state: every call stands alone.
pub struct RestClient;

/// The query that replaces the URL's own: the serialised pairs, if any were
/// supplied.
pub open spec fn replacement_query(params: Option<Seq<(Seq<char>, Seq<char>)>>) -> Option<
    Seq<char>,
> {
    match params {
        Some(p) => Some(form_urlencoded(p)),
        None => None,
    }
}

/// What a call produces, over plain text: the error of a URL that does not
/// parse, and otherwise the request assembled from the parsed URL.
pub open spec fn outbound(
    method: Method,
    url: Seq<char>,
    params: Option<Seq<(Seq<char>, Seq<char>)>>,
    body: Option<Seq<char>>,
    content_type: Option<Seq<char>>,
) -> Result<RequestView, RestError> {
    match url_parse(url) {
        Err(e) => Err(RestError::UrlParseError(e)),
        Ok(target) => Ok(
            RequestView::assemble(method, target, replacement_query(params), body, content_type),
        ),
    }
}

/// What a call with a form body produces: the pairs travel serialised as the
/// body, under the form content type, and the URL keeps its own query.
pub open spec fn outbound_form(
    method: Method,
    url: Seq<char>,
    params: Seq<(Seq<char>, Seq<char>)>,
) -> Result<RequestView, RestError> {
    outbound(method, url, None, Some(form_urlencoded(params)), Some(FORM_CONTENT_TYPE@))
}

/// The result of a call with the request taken by its view.
pub open spec fn outcome(res: Result<Request, RestError>) -> Result<RequestView, RestError> {
    match res {
        Ok(req) => Ok(req@),
        Err(e) => Err(e),
    }
}

impl RestClient {
    /// `GET` without parameters: the URL is used as it parses.
    pub fn get(url_str: &str) -> (res: Result<Request, RestError>)
        ensures
            outcome(res) == outbound(Method::Get, url_str@, None, None, None),
    {
        RestClient::new(Method::Get, url_str, None, None, None)
    }

    /// `GET` with parameters. Whatever query the URL string carried, the
    /// request's query is the serialisation of `params` in the given order.
    pub fn get_with_params(url_str: &str, params: &[(&str, &str)]) -> (res: Result<
        Request,
        RestError,
    >)
        ensures
            outcome(res) == outbound(
                Method::Get,
                url_str@,
                Some(pairs_text(params@)),
                None,
                None,
            ),
            res is Ok <==> url_parse(url_str@) is Ok,
            res matches Ok(req) ==> req@.target.query == Some(
                form_urlencoded(pairs_text(params@)),
            ),
    {
        RestClient::new(Method::Get, url_str, Some(params), None, None)
    }

    /// `POST` with the parameters serialised as a form body.
    pub fn post_with_params(url_str: &str, params: &[(&str, &str)]) -> (res: Result<
        Request,
        RestError,
    >)
        ensures
            outcome(res) == outbound_form(Method::Post, url_str@, pairs_text(params@)),
    {
        RestClient::pstar_with_params(Method::Post, url_str, params)
    }

    /// `POST` with a raw body and its content type.
    pub fn post(url_str: &str, body: &str, content_type: &str) -> (res: Result<
        Request,
        RestError,
    >)
        ensures
            outcome(res) == outbound(
                Method::Post,
                url_str@,
                None,
                Some(body@),
                Some(content_type@),
            ),
    {
        RestClient::pstar(Method::Post, url_str, body, content_type)
    }

    /// `PATCH` with the parameters serialised as a form body.
    pub fn patch_with_params(url_str: &str, params: &[(&str, &str)]) -> (res: Result<
        Request,
        RestError,
    >)
        ensures
            outcome(res) == outbound_form(Method::Patch, url_str@, pairs_text(params@)),
    {
        RestClient::pstar_with_params(Method::Patch, url_str, params)
    }

    /// `PATCH` with a raw body and its content type.
    pub fn patch(url_str: &str, body: &str, content_type: &str) -> (res: Result<
        Request,
        RestError,
    >)
        ensures
            outcome(res) == outbound(
                Method::Patch,
                url_str@,
                None,
                Some(body@),
                Some(content_type@),
            ),
    {
        RestClient::pstar(Method::Patch, url_str, body, content_type)
    }

    /// `PUT` with the parameters serialised as a form body.
    pub fn put_with_params(url_str: &str, params: &[(&str, &str)]) -> (res: Result<
        Request,
        RestError,
    >)
        ensures
            outcome(res) == outbound_form(Method::Put, url_str@, pairs_text(params@)),
    {
        RestClient::pstar_with_params(Method::Put, url_str, params)
    }

    /// `PUT` with a raw body and its content type.
    pub fn put(url_str: &str, body: &str, content_type: &str) -> (res: Result<
        Request,
        RestError,
    >)
        ensures
            outcome(res) == outbound(
                Method::Put,
                url_str@,
                None,
                Some(body@),
                Some(content_type@),
            ),
    {
        RestClient::pstar(Method::Put, url_str, body, content_type)
    }

    /// `DELETE` without parameters.
    pub fn delete(url_str: &str) -> (res: Result<Request, RestError>)
        ensures
            outcome(res) == outbound(Method::Delete, url_str@, None, None, None),
    {
        RestClient::new(Method::Delete, url_str, None, None, None)
    }

    /// `DELETE` with parameters, which replace the URL's query.
    pub fn delete_with_params(url_str: &str, params: &[(&str, &str)]) -> (res: Result<
        Request,
        RestError,
    >)
        ensures
            outcome(res) == outbound(
                Method::Delete,
                url_str@,
                Some(pairs_text(params@)),
                None,
                None,
            ),
    {
        RestClient::new(Method::Delete, url_str, Some(params), None, None)
    }

    /// A body-bearing verb whose body is the serialised parameters.
    fn pstar_with_params(method: Method, url_str: &str, params: &[(&str, &str)]) -> (res: Result<
        Request,
        RestError,
    >)
        ensures
            outcome(res) == outbound_form(method, url_str@, pairs_text(params@)),
    {
        let post_body = serialize_pairs(params);
        RestClient::pstar(method, url_str, post_body.as_str(), FORM_CONTENT_TYPE)
    }

    /// A body-bearing verb with a raw body: no query parameters are applied.
    fn pstar(method: Method, url_str: &str, body: &str, content_type: &str) -> (res: Result<
        Request,
        RestError,
    >)
        ensures
            outcome(res) == outbound(method, url_str@, None, Some(body@), Some(content_type@)),
    {
        RestClient::new(method, url_str, None, Some(body), Some(content_type))
    }

    /// Builds the outbound request for any combination of method, URL,
    /// parameters, body and content type.
    ///
    /// The URL is parsed first, and a string that does not parse ends the call
    /// with `UrlParseError` and the parser's own error; nothing else can fail
    /// here. Supplied parameters overwrite the URL's query with their
    /// serialisation; without parameters the URL's query stays as it parsed.
    /// The content length of the request is the body's length in bytes, zero
    /// without a body, and the content type is set exactly when one is given.
    pub fn new(
        method: Method,
        url_str: &str,
        url_params: Option<&[(&str, &str)]>,
        body: Option<&str>,
        content_type: Option<&str>,
    ) -> (res: Result<Request, RestError>)
        ensures
            outcome(res) == outbound(
                method,
                url_str@,
                opt_pairs_text(url_params),
                str_text_of(body),
                str_text_of(content_type),
            ),
            res is Ok <==> url_parse(url_str@) is Ok,
            url_parse(url_str@) matches Err(e) ==> res == Err::<Request, RestError>(
                RestError::UrlParseError(e),
            ),
            res matches Ok(req) ==> {
                &&& req.method == method
                &&& req@.content_length() == match body {
                    Some(b) => byte_length(b@),
                    None => 0,
                }
                &&& req@.body == str_text_of(body)
                &&& req@.content_type == str_text_of(content_type)
                &&& (req.content_type is Some <==> content_type is Some)
                &&& url_params matches Some(p) ==> req@.target.query == Some(
                    form_urlencoded(pairs_text(p@)),
                )
            },
    {
        let target = match parse_url(url_str) {
            Ok(target) => target,
            Err(err) => return Err(RestError::UrlParseError(err)),
        };
        let query = match url_params {
            Some(params) => Some(serialize_pairs(params)),
            None => None,
        };
        Ok(Request::assemble(method, target, query, body, content_type))
    }
}

/// Supplied parameters decide the query alone: whatever query the URL string
/// carried, the request's query is the serialisation of the parameters in the
/// order given, and the rest of the URL is as it parsed.
pub proof fn law_params_replace_query(
    method: Method,
    url: Seq<char>,
    params: Seq<(Seq<char>, Seq<char>)>,
    body: Option<Seq<char>>,
    content_type: Option<Seq<char>>,
)
    requires
        url_parse(url) is Ok,
    ensures
        outbound(method, url, Some(params), body, content_type) matches Ok(req) && {
            &&& req.target.query == Some(form_urlencoded(params))
            &&& req.target.stem == url_parse(url)->Ok_0.stem
            &&& req.target.fragment == url_parse(url)->Ok_0.fragment
        },
{
}

/// Without parameters the URL goes out as it parsed, its own query included.
pub proof fn law_no_params_keep_url(
    method: Method,
    url: Seq<char>,
    body: Option<Seq<char>>,
    content_type: Option<Seq<char>>,
)
    requires
        url_parse(url) is Ok,
    ensures
        outbound(method, url, None, body, content_type) matches Ok(req) && req.target
            == url_parse(url)->Ok_0,
{
}

/// The content length is always there: the exact length of the body in bytes
/// when there is a body, zero when there is none. The content type is set if
/// and only if one was supplied, and then to what was supplied.
pub proof fn law_content_headers(
    method: Method,
    url: Seq<char>,
    params: Option<Seq<(Seq<char>, Seq<char>)>>,
    body: Option<Seq<char>>,
    content_type: Option<Seq<char>>,
)
    ensures
        outbound(method, url, params, body, content_type) matches Ok(req) ==> {
            &&& body matches Some(b) ==> req.content_length() == byte_length(b)
            &&& body is None ==> req.content_length() == 0
            &&& req.content_type is Some <==> content_type is Some
            &&& req.content_type == content_type
            &&& req.body == body
            &&& req.method == method
        },
{
}

/// A URL string that does not parse ends the call with `UrlParseError` and the
/// parser's error, whatever else was supplied; no request comes to exist. A
/// URL string that parses never fails the call.
pub proof fn law_malformed_url_is_the_only_failure(
    method: Method,
    url: Seq<char>,
    params: Option<Seq<(Seq<char>, Seq<char>)>>,
    body: Option<Seq<char>>,
    content_type: Option<Seq<char>>,
)
    ensures
        url_parse(url) matches Err(e) ==> outbound(method, url, params, body, content_type)
            == Err::<RequestView, RestError>(RestError::UrlParseError(e)),
        url_parse(url) is Ok ==> outbound(method, url, params, body, content_type) is Ok,
{
}

/// Sending parameters with a body-bearing verb is sending their serialisation
/// as a raw body under the form content type: the two calls make the same
/// request.
pub proof fn law_form_call_is_body_call(
    method: Method,
    url: Seq<char>,
    params: Seq<(Seq<char>, Seq<char>)>,
)
    ensures
        outbound_form(method, url, params) == outbound(
            method,
            url,
            None,
            Some(form_urlencoded(params)),
            Some(FORM_CONTENT_TYPE@),
        ),
        outbound_form(method, url, params) matches Ok(req) ==> req.target
            == url_parse(url)->Ok_0,
{
}

} // verus!
