use hyper::header::Headers;
use rest_client::{
    Action, Event, Exchange, Method, Request, Response, RestClient, RestError, Status, StatusClass,
};
use std::io::{Error, ErrorKind};

fn built(result: Result<Request, RestError>) -> Request {
    match result {
        Ok(request) => request,
        Err(e) => panic!("the request was not built: {:?}", e),
    }
}

/// Plays the transport for a request: every step goes through, and the server
/// answers with the given status, headers and body.
fn answer(request: Request, code: u16, headers: Headers, text: &str) -> Result<Response, RestError> {
    let mut exchange = Exchange::new(request);
    loop {
        let event = match exchange.action() {
            Action::Construct { .. } | Action::Begin { .. } | Action::WriteBody { .. } => {
                Event::Proceeded
            }
            Action::Send => Event::Replied { code, headers: headers.clone() },
            Action::ReadBody => Event::Delivered { text: text.to_string() },
            Action::Finish => match exchange.into_outcome() {
                Some(outcome) => return outcome,
                None => panic!("a finished exchange has an outcome"),
            },
        };
        exchange = exchange.advance(event);
    }
}

fn listing() -> &'static str {
    "{\"data\":{\"children\":[{\"kind\":\"t3\",\"data\":{\"title\":\"hot\"}}]}}"
}

fn children_of(body: &str) -> usize {
    let parsed: serde_json::Value = serde_json::from_str(body).unwrap();
    parsed.get("data").unwrap().get("children").unwrap().as_array().unwrap().len()
}

#[test]
fn test_get() {
    let request = RestClient::get("http://www.reddit.com/hot.json?limit=1").unwrap();
    assert_eq!(request.url(), "http://www.reddit.com/hot.json?limit=1");
    let response = answer(request, 200, Headers::new(), listing()).unwrap();
    assert!(children_of(response.body.as_str()) == 1);
}

#[test]
fn test_get_with_params() {
    let request =
        RestClient::get_with_params("http://www.reddit.com/hot.json", &[("limit", "1")]).unwrap();
    assert_eq!(request.url(), "http://www.reddit.com/hot.json?limit=1");
    let response = answer(request, 200, Headers::new(), listing()).unwrap();
    assert!(children_of(response.body.as_str()) == 1);
}

#[test]
fn not_found_is_a_response() {
    let request = built(RestClient::get("http://example.com/missing"));
    let response = answer(request, 404, Headers::new(), "gone").unwrap();
    assert_eq!(response.code, 404);
    assert_eq!(response.status.class, StatusClass::ClientError);
    assert_eq!(response.status.reason, Some("Not Found".to_string()));
    assert_eq!(response.body, "gone");
}

#[test]
fn server_error_is_a_response() {
    let request = built(RestClient::post("http://example.com/", "x", "text/plain"));
    let response = answer(request, 503, Headers::new(), "").unwrap();
    assert_eq!(response.code, 503);
    assert_eq!(response.status.class, StatusClass::ServerError);
    assert_eq!(response.status.reason, Some("Service Unavailable".to_string()));
    assert_eq!(response.body, "");
}

#[test]
fn body_is_surfaced_as_raw_text() {
    let raw = "{\"data\":{\"children\":[{\"kind\":\"t3\"}]}}";
    let request = built(RestClient::get("http://example.com/listing"));
    let response = answer(request, 200, Headers::new(), raw).unwrap();
    assert_eq!(response.body, raw);
    assert_eq!(response.render(), raw);
    assert_eq!(children_of(response.body.as_str()), 1);

    let broken = "{\"data\":{\"children\":[";
    let request = built(RestClient::get("http://example.com/listing"));
    let response = answer(request, 200, Headers::new(), broken).unwrap();
    assert_eq!(response.body, broken);
}

#[test]
fn headers_are_carried_through() {
    let mut headers = Headers::new();
    headers.set_raw("X-Trace", vec![b"abc".to_vec(), b"def".to_vec()]);
    headers.set_raw("Content-Type", vec![b"application/json".to_vec()]);
    let request = built(RestClient::get("http://example.com/"));
    let response = answer(request, 200, headers.clone(), "{}").unwrap();
    assert_eq!(response.headers, headers);
    assert_eq!(response.headers.len(), 2);
    assert_eq!(
        response.headers.get_raw("X-Trace"),
        Some(&[b"abc".to_vec(), b"def".to_vec()][..])
    );
}

#[test]
fn exchange_without_body_never_writes() {
    let request = built(RestClient::new(
        Method::Get,
        "http://example.com/a?b=1",
        None,
        None,
        Some("text/plain"),
    ));
    let exchange = Exchange::new(request);
    assert!(!exchange.is_finished());
    match exchange.action() {
        Action::Construct { method, url } => {
            assert_eq!(method, Method::Get);
            assert_eq!(url, "http://example.com/a?b=1");
        }
        other => panic!("expected Construct, got {:?}", other),
    }
    let exchange = exchange.advance(Event::Proceeded);
    match exchange.action() {
        Action::Begin { content_length, content_type } => {
            assert_eq!(content_length, 0);
            assert_eq!(content_type, Some("text/plain".to_string()));
        }
        other => panic!("expected Begin, got {:?}", other),
    }
    let exchange = exchange.advance(Event::Proceeded);
    assert!(matches!(exchange.action(), Action::Send));
    let exchange = exchange.advance(Event::Replied { code: 204, headers: Headers::new() });
    assert!(matches!(exchange.action(), Action::ReadBody));
    assert!(!exchange.is_finished());
    let exchange = exchange.advance(Event::Delivered { text: String::new() });
    assert!(matches!(exchange.action(), Action::Finish));
    assert!(exchange.is_finished());
    let response = exchange.into_outcome().unwrap().unwrap();
    assert_eq!(response.code, 204);
    assert_eq!(response.status.class, StatusClass::Success);
    assert_eq!(response.status.reason, Some("No Content".to_string()));
    assert_eq!(response.body, "");
}

#[test]
fn exchange_with_body_writes_its_bytes() {
    let request = built(RestClient::post("http://example.com/", "h\u{e9}", "text/plain"));
    let exchange = Exchange::new(request);
    assert!(matches!(exchange.action(), Action::Construct { method: Method::Post, .. }));
    let exchange = exchange.advance(Event::Proceeded);
    match exchange.action() {
        Action::Begin { content_length, content_type } => {
            assert_eq!(content_length, 3);
            assert_eq!(content_type, Some("text/plain".to_string()));
        }
        other => panic!("expected Begin, got {:?}", other),
    }
    let exchange = exchange.advance(Event::Proceeded);
    match exchange.action() {
        Action::WriteBody { bytes } => assert_eq!(bytes, vec![0x68u8, 0xc3, 0xa9]),
        other => panic!("expected WriteBody, got {:?}", other),
    }
    let exchange = exchange.advance(Event::Proceeded);
    assert!(matches!(exchange.action(), Action::Send));
    let exchange = exchange.advance(Event::Replied { code: 201, headers: Headers::new() });
    assert!(matches!(exchange.action(), Action::ReadBody));
    let exchange = exchange.advance(Event::Delivered { text: "made".to_string() });
    let response = exchange.into_outcome().unwrap().unwrap();
    assert_eq!(response.code, 201);
    assert_eq!(response.body, "made");
}

#[test]
fn empty_body_is_still_written() {
    let request = built(RestClient::post("http://example.com/", "", "text/plain"));
    let exchange = Exchange::new(request).advance(Event::Proceeded);
    match exchange.action() {
        Action::Begin { content_length, .. } => assert_eq!(content_length, 0),
        other => panic!("expected Begin, got {:?}", other),
    }
    let exchange = exchange.advance(Event::Proceeded);
    match exchange.action() {
        Action::WriteBody { bytes } => assert!(bytes.is_empty()),
        other => panic!("expected WriteBody, got {:?}", other),
    }
}

fn refusal() -> Event {
    Event::Refused(hyper::Error::Method)
}

fn fault() -> Event {
    Event::Broke(Error::new(ErrorKind::BrokenPipe, "pipe"))
}

fn after_steps(steps: usize) -> Exchange {
    let request = built(RestClient::post("http://example.com/", "body", "text/plain"));
    let mut exchange = Exchange::new(request);
    for step in 0..steps {
        let event = if step < 3 {
            Event::Proceeded
        } else {
            Event::Replied { code: 200, headers: Headers::new() }
        };
        exchange = exchange.advance(event);
    }
    exchange
}

#[test]
fn refusal_is_an_http_request_error_at_every_step() {
    for steps in 0..5 {
        let exchange = after_steps(steps).advance(refusal());
        assert!(exchange.is_finished());
        assert!(matches!(exchange.action(), Action::Finish));
        match exchange.into_outcome() {
            Some(Err(RestError::HttpRequestError(hyper::Error::Method))) => {}
            _ => panic!("expected HttpRequestError after {} steps", steps),
        }
    }
}

#[test]
fn fault_is_an_http_io_error_at_every_step() {
    for steps in 0..5 {
        let exchange = after_steps(steps).advance(fault());
        assert!(exchange.is_finished());
        match exchange.into_outcome() {
            Some(Err(RestError::HttpIoError(e))) => assert_eq!(e.kind(), ErrorKind::BrokenPipe),
            _ => panic!("expected HttpIoError after {} steps", steps),
        }
    }
}

#[test]
fn failed_write_ends_before_send() {
    let exchange = after_steps(2);
    assert!(matches!(exchange.action(), Action::WriteBody { .. }));
    let exchange = exchange.advance(fault());
    assert!(matches!(exchange.action(), Action::Finish));
    assert!(matches!(exchange.into_outcome(), Some(Err(RestError::HttpIoError(_)))));
}

#[test]
fn failed_read_exposes_no_partial_response() {
    let exchange = after_steps(4);
    assert!(matches!(exchange.action(), Action::ReadBody));
    let exchange = exchange.advance(fault());
    assert!(matches!(exchange.into_outcome(), Some(Err(RestError::HttpIoError(_)))));
}

#[test]
fn finished_exchange_ignores_further_events() {
    let failed = after_steps(1).advance(refusal());
    let failed = failed.advance(Event::Proceeded);
    let failed = failed.advance(fault());
    let failed = failed.advance(Event::Delivered { text: "late".to_string() });
    assert!(matches!(failed.into_outcome(), Some(Err(RestError::HttpRequestError(_)))));

    let done = after_steps(4).advance(Event::Delivered { text: "first".to_string() });
    let done = done.advance(Event::Delivered { text: "second".to_string() });
    let done = done.advance(refusal());
    let response = done.into_outcome().unwrap().unwrap();
    assert_eq!(response.body, "first");
    assert_eq!(response.code, 200);
}

#[test]
fn event_that_answers_nothing_changes_nothing() {
    let exchange = after_steps(0).advance(Event::Delivered { text: "early".to_string() });
    assert!(matches!(exchange.action(), Action::Construct { .. }));
    let exchange = exchange.advance(Event::Replied { code: 200, headers: Headers::new() });
    assert!(matches!(exchange.action(), Action::Construct { .. }));

    let exchange = after_steps(3).advance(Event::Proceeded);
    assert!(matches!(exchange.action(), Action::Send));
    let exchange = exchange.advance(Event::Delivered { text: "early".to_string() });
    assert!(matches!(exchange.action(), Action::Send));

    let exchange = after_steps(4).advance(Event::Proceeded);
    assert!(matches!(exchange.action(), Action::ReadBody));
    let exchange = exchange.advance(Event::Replied { code: 500, headers: Headers::new() });
    assert!(matches!(exchange.action(), Action::ReadBody));
    let response = exchange
        .advance(Event::Delivered { text: "ok".to_string() })
        .into_outcome()
        .unwrap()
        .unwrap();
    assert_eq!(response.code, 200);
}

#[test]
fn unfinished_exchange_has_no_outcome() {
    for steps in 0..5 {
        assert!(after_steps(steps).into_outcome().is_none());
    }
}

#[test]
fn exchange_keeps_its_request() {
    let exchange = after_steps(3);
    assert_eq!(exchange.request().method, Method::Post);
    assert_eq!(exchange.request().url(), "http://example.com/");
    assert_eq!(exchange.request().body, Some("body".to_string()));
}

#[test]
fn two_exchanges_share_nothing() {
    let first = answer(
        built(RestClient::get("http://example.com/resource")),
        200,
        Headers::new(),
        "stable",
    )
    .unwrap();
    let second = answer(
        built(RestClient::get("http://example.com/resource")),
        200,
        Headers::new(),
        "stable",
    )
    .unwrap();
    assert_eq!(first.code, second.code);
    assert_eq!(first.body, second.body);

    let other = answer(
        built(RestClient::get("http://example.com/resource")),
        404,
        Headers::new(),
        "changed",
    )
    .unwrap();
    assert_eq!(other.code, 404);
    assert_eq!(other.body, "changed");
    assert_eq!(first.code, 200);
    assert_eq!(first.body, "stable");
}

#[test]
fn status_classes_go_by_the_hundreds() {
    assert_eq!(Status::classify(0), StatusClass::NoClass);
    assert_eq!(Status::classify(99), StatusClass::NoClass);
    assert_eq!(Status::classify(100), StatusClass::Informational);
    assert_eq!(Status::classify(199), StatusClass::Informational);
    assert_eq!(Status::classify(200), StatusClass::Success);
    assert_eq!(Status::classify(299), StatusClass::Success);
    assert_eq!(Status::classify(300), StatusClass::Redirection);
    assert_eq!(Status::classify(399), StatusClass::Redirection);
    assert_eq!(Status::classify(400), StatusClass::ClientError);
    assert_eq!(Status::classify(499), StatusClass::ClientError);
    assert_eq!(Status::classify(500), StatusClass::ServerError);
    assert_eq!(Status::classify(599), StatusClass::ServerError);
    assert_eq!(Status::classify(600), StatusClass::NoClass);
    assert_eq!(Status::classify(65535), StatusClass::NoClass);
}

#[test]
fn status_has_the_canonical_reason() {
    assert_eq!(Status::of(200).reason, Some("OK".to_string()));
    assert_eq!(Status::of(418).reason, Some("I'm a teapot".to_string()));
    assert_eq!(Status::of(299).reason, None);
    assert_eq!(Status::of(299).class, StatusClass::Success);
    assert_eq!(Status::of(1000).reason, None);
    assert_eq!(Status::of(1000).class, StatusClass::NoClass);

    let named = Status::with_reason(404, Some("Nowhere".to_string()));
    assert_eq!(named.class, StatusClass::ClientError);
    assert_eq!(named.reason, Some("Nowhere".to_string()));
}

#[test]
fn response_is_put_together_from_its_parts() {
    let response =
        Response::assemble(302, Some("Found".to_string()), Headers::new(), "moved".to_string());
    assert_eq!(response.code, 302);
    assert_eq!(response.status.class, StatusClass::Redirection);
    assert_eq!(response.status.reason, Some("Found".to_string()));
    assert_eq!(response.body, "moved");
    assert_eq!(response.render(), "moved");

    let largest = Response::of(65535, Headers::new(), String::new());
    assert_eq!(largest.code, 65535);
    assert_eq!(largest.status.class, StatusClass::NoClass);
    assert_eq!(largest.status.reason, None);
}
