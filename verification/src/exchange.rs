//! One exchange with the transport, step by step.
//!
//! The client does not touch the network. It says what is to be done next
//! (an [`Action`]), whoever owns the connection does it and reports what came
//! of it (an [`Event`]), and the exchange moves on. Every failure ends the
//! exchange at once; nothing is tried twice.

use vstd::prelude::*;
use vstd::string::*;
use vstd::utf8::encode_utf8;
use crate::error::RestError;
use crate::method::Method;
use crate::request::{byte_length, Request, RequestView};
use crate::response::{Response, ResponseView};
use crate::text::{copy_text, text_of};
use hyper::header::Headers;

verus! {

/// What is to be done next.
#[derive(Debug)]
pub enum Action {
    /// Construct the transport's request for this method and URL.
    Construct { method: Method, url: String },
    /// Set the headers and begin the request. The content length is always
    /// set; the content type only if there is one.
    Begin { content_length: u64, content_type: Option<String> },
    /// Write all of these bytes as the body.
    WriteBody { bytes: Vec<u8> },
    /// Finish sending and obtain the reply's status and headers.
    Send,
    /// Read the whole body of the reply as text.
    ReadBody,
    /// Nothing: the exchange has ended and its outcome can be taken.
    Finish,
}

/// What an `Action` stands for.
pub enum ActionView {
    Construct { method: Method, url: Seq<char> },
    Begin { content_length: nat, content_type: Option<Seq<char>> },
    WriteBody { bytes: Seq<u8> },
    Send,
    ReadBody,
    Finish,
}

impl View for Action {
    type V = ActionView;

    open spec fn view(&self) -> ActionView {
        match *self {
            Action::Construct { method, url } => ActionView::Construct { method, url: url@ },
            Action::Begin { content_length, content_type } => ActionView::Begin {
                content_length: content_length as nat,
                content_type: text_of(content_type),
            },
            Action::WriteBody { bytes } => ActionView::WriteBody { bytes: bytes@ },
            Action::Send => ActionView::Send,
            Action::ReadBody => ActionView::ReadBody,
            Action::Finish => ActionView::Finish,
        }
    }
}

/// What came of the last action.
#[derive(Debug)]
pub enum Event {
    /// Constructing, beginning or writing went through.
    Proceeded,
    /// Sending went through: the reply's status number and header fields.
    Replied { code: u16, headers: Headers },
    /// Reading went through: the whole body.
    Delivered { text: String },
    /// The transport refused to construct, begin or send.
    Refused(hyper::Error),
    /// Writing or reading bytes failed.
    Broke(std::io::Error),
}

/// What an `Event` stands for.
pub enum EventView {
    Proceeded,
    Replied { code: u16, headers: Headers },
    Delivered { text: Seq<char> },
    Refused(hyper::Error),
    Broke(std::io::Error),
}

impl View for Event {
    type V = EventView;

    open spec fn view(&self) -> EventView {
        match *self {
            Event::Proceeded => EventView::Proceeded,
            Event::Replied { code, headers } => EventView::Replied { code, headers },
            Event::Delivered { text } => EventView::Delivered { text: text@ },
            Event::Refused(e) => EventView::Refused(e),
            Event::Broke(e) => EventView::Broke(e),
        }
    }
}

/// How far an exchange has come: the step that is pending, or the outcome.
pub enum Stage {
    Construct,
    Begin,
    WriteBody,
    Send,
    ReadBody { code: u16, headers: Headers },
    Finished(Result<ResponseView, RestError>),
}

/// What an `Exchange` stands for: the request it is about and how far it has
/// come.
pub struct ExchangeView {
    pub request: RequestView,
    pub stage: Stage,
}

impl ExchangeView {
    /// An exchange that has not begun.
    pub open spec fn fresh(request: RequestView) -> ExchangeView {
        ExchangeView { request, stage: Stage::Construct }
    }

    /// The same exchange at another stage.
    pub open spec fn at(self, stage: Stage) -> ExchangeView {
        ExchangeView { request: self.request, stage }
    }

    /// True once the exchange has ended, in a response or in an error.
    pub open spec fn finished(self) -> bool {
        self.stage is Finished
    }

    /// What is to be done at this stage, and with what.
    pub open spec fn action(self) -> ActionView {
        match self.stage {
            Stage::Construct => ActionView::Construct {
                method: self.request.method,
                url: self.request.target.href(),
            },
            Stage::Begin => ActionView::Begin {
                content_length: self.request.content_length(),
                content_type: self.request.content_type,
            },
            Stage::WriteBody => ActionView::WriteBody {
                bytes: match self.request.body {
                    Some(b) => encode_utf8(b),
                    None => Seq::<u8>::empty(),
                },
            },
            Stage::Send => ActionView::Send,
            Stage::ReadBody { .. } => ActionView::ReadBody,
            Stage::Finished(_) => ActionView::Finish,
        }
    }

    /// The exchange after an event.
    ///
    /// A finished exchange stays as it is. Otherwise a failure finishes it
    /// with the error of its kind, whatever was pending. A success moves it
    /// one step on if it answers the pending action: after beginning, the body
    /// is written only if there is one; after reading, the response is put
    /// together, whatever its status. A success that does not answer the
    /// pending action changes nothing.
    pub open spec fn after(self, event: EventView) -> ExchangeView {
        match (self.stage, event) {
            (Stage::Finished(_), _) => self,
            (_, EventView::Refused(e)) => self.at(
                Stage::Finished(Err(RestError::HttpRequestError(e))),
            ),
            (_, EventView::Broke(e)) => self.at(Stage::Finished(Err(RestError::HttpIoError(e)))),
            (Stage::Construct, EventView::Proceeded) => self.at(Stage::Begin),
            (Stage::Begin, EventView::Proceeded) => if self.request.body is Some {
                self.at(Stage::WriteBody)
            } else {
                self.at(Stage::Send)
            },
            (Stage::WriteBody, EventView::Proceeded) => self.at(Stage::Send),
            (Stage::Send, EventView::Replied { code, headers }) => self.at(
                Stage::ReadBody { code, headers },
            ),
            (Stage::ReadBody { code, headers }, EventView::Delivered { text }) => self.at(
                Stage::Finished(Ok(ResponseView::of(code, headers, text))),
            ),
            _ => self,
        }
    }

    /// The outcome, once there is one.
    pub open spec fn outcome(self) -> Option<Result<ResponseView, RestError>> {
        match self.stage {
            Stage::Finished(result) => Some(result),
            _ => None,
        }
    }
}

/// The pending step of a running exchange, or the outcome of a finished one.
enum Progress {
    Construct,
    Begin,
    WriteBody,
    Send,
    ReadBody { code: u16, headers: Headers },
    Finished(Result<Response, RestError>),
}

impl View for Progress {
    type V = Stage;

    closed spec fn view(&self) -> Stage {
        match *self {
            Progress::Construct => Stage::Construct,
            Progress::Begin => Stage::Begin,
            Progress::WriteBody => Stage::WriteBody,
            Progress::Send => Stage::Send,
            Progress::ReadBody { code, headers } => Stage::ReadBody { code, headers },
            Progress::Finished(Ok(response)) => Stage::Finished(Ok(response@)),
            Progress::Finished(Err(e)) => Stage::Finished(Err(e)),
        }
    }
}

/// One request on its way to one response or one error.
pub struct Exchange {
    request: Request,
    progress: Progress,
}

impl View for Exchange {
    type V = ExchangeView;

    closed spec fn view(&self) -> ExchangeView {
        ExchangeView { request: self.request@, stage: self.progress@ }
    }
}

/// The result of an exchange with the response taken by its view.
pub open spec fn outcome_view(outcome: Option<Result<Response, RestError>>) -> Option<
    Result<ResponseView, RestError>,
> {
    match outcome {
        Some(Ok(response)) => Some(Ok(response@)),
        Some(Err(e)) => Some(Err(e)),
        None => None,
    }
}

impl Exchange {
    /// Starts the exchange for a request. Nothing has been done yet.
    pub fn new(request: Request) -> (exchange: Exchange)
        ensures
            exchange@ == ExchangeView::fresh(request@),
    {
        Exchange { request, progress: Progress::Construct }
    }

    /// The request this exchange is about.
    pub fn request(&self) -> (request: &Request)
        ensures
            request@ == self@.request,
    {
        &self.request
    }

    /// True once the exchange has ended.
    pub fn is_finished(&self) -> (done: bool)
        ensures
            done == self@.finished(),
    {
        match &self.progress {
            Progress::Finished(_) => true,
            _ => false,
        }
    }

    /// What is to be done next, with everything that is handed to the
    /// transport for it.
    pub fn action(&self) -> (action: Action)
        ensures
            action@ == self@.action(),
    {
        match &self.progress {
            Progress::Construct => Action::Construct {
                method: self.request.method,
                url: self.request.url(),
            },
            Progress::Begin => Action::Begin {
                content_length: self.request.content_length(),
                content_type: copy_text(&self.request.content_type),
            },
            Progress::WriteBody => Action::WriteBody {
                bytes: match &self.request.body {
                    Some(b) => b.as_str().as_bytes_vec(),
                    None => Vec::new(),
                },
            },
            Progress::Send => Action::Send,
            Progress::ReadBody { .. } => Action::ReadBody,
            Progress::Finished(_) => Action::Finish,
        }
    }

    /// Takes in what came of the last action and moves on.
    pub fn advance(self, event: Event) -> (next: Exchange)
        ensures
            next@ == self@.after(event@),
    {
        let Exchange { request, progress } = self;
        let has_body = request.body.is_some();
        let progress = match progress {
            Progress::Finished(outcome) => Progress::Finished(outcome),
            pending => match event {
                Event::Refused(e) => Progress::Finished(Err(RestError::HttpRequestError(e))),
                Event::Broke(e) => Progress::Finished(Err(RestError::HttpIoError(e))),
                Event::Proceeded => match pending {
                    Progress::Construct => Progress::Begin,
                    Progress::Begin => if has_body {
                        Progress::WriteBody
                    } else {
                        Progress::Send
                    },
                    Progress::WriteBody => Progress::Send,
                    other => other,
                },
                Event::Replied { code, headers } => match pending {
                    Progress::Send => Progress::ReadBody { code, headers },
                    other => other,
                },
                Event::Delivered { text } => match pending {
                    Progress::ReadBody { code, headers } => Progress::Finished(
                        Ok(Response::of(code, headers, text)),
                    ),
                    other => other,
                },
            },
        };
        Exchange { request, progress }
    }

    /// Ends the exchange and hands out its outcome: the response or the
    /// error if it has finished, and nothing if it has not.
    pub fn into_outcome(self) -> (outcome: Option<Result<Response, RestError>>)
        ensures
            outcome_view(outcome) == self@.outcome(),
    {
        match self.progress {
            Progress::Finished(result) => Some(result),
            _ => None,
        }
    }
}

/// A failure ends an exchange that is still running, at once and whatever was
/// pending: a refusal by the transport as `HttpRequestError`, a failed read or
/// write as `HttpIoError`, each with the error as it was reported.
pub proof fn law_failure_ends_exchange(
    exchange: ExchangeView,
    refusal: hyper::Error,
    fault: std::io::Error,
)
    requires
        !exchange.finished(),
    ensures
        exchange.after(EventView::Refused(refusal)).outcome() == Some(
            Err::<ResponseView, RestError>(RestError::HttpRequestError(refusal)),
        ),
        exchange.after(EventView::Broke(fault)).outcome() == Some(
            Err::<ResponseView, RestError>(RestError::HttpIoError(fault)),
        ),
        exchange.after(EventView::Refused(refusal)).action() == ActionView::Finish,
        exchange.after(EventView::Broke(fault)).action() == ActionView::Finish,
{
}

/// A finished exchange is final: no event changes its outcome, and nothing
/// more is asked of the transport.
pub proof fn law_finished_is_final(exchange: ExchangeView, event: EventView)
    requires
        exchange.finished(),
    ensures
        exchange.after(event) == exchange,
        exchange.action() == ActionView::Finish,
        exchange.outcome() is Some,
{
}

/// An exchange has an outcome exactly when it asks for nothing more.
pub proof fn law_outcome_iff_finish(exchange: ExchangeView)
    ensures
        exchange.outcome() is Some <==> exchange.action() == ActionView::Finish,
        exchange.outcome() is Some <==> exchange.finished(),
{
}

/// The exchange of a request without a body, when every step goes through:
/// construct, begin with a content length of zero, send, read. No body is
/// written. The outcome is a response with the status number and the body
/// text exactly as received, whatever the status number is.
pub proof fn law_exchange_without_body(
    request: RequestView,
    code: u16,
    headers: Headers,
    text: Seq<char>,
)
    requires
        request.body is None,
    ensures
        ({
            let constructing = ExchangeView::fresh(request);
            let beginning = constructing.after(EventView::Proceeded);
            let sending = beginning.after(EventView::Proceeded);
            let reading = sending.after(EventView::Replied { code, headers });
            let done = reading.after(EventView::Delivered { text });
            &&& constructing.action() == ActionView::Construct {
                method: request.method,
                url: request.target.href(),
            }
            &&& beginning.action() == ActionView::Begin {
                content_length: 0,
                content_type: request.content_type,
            }
            &&& sending.action() == ActionView::Send
            &&& reading.action() == ActionView::ReadBody
            &&& done.action() == ActionView::Finish
            &&& done.outcome() == Some(
                Ok::<ResponseView, RestError>(ResponseView::of(code, headers, text)),
            )
            &&& ResponseView::of(code, headers, text).code == code
            &&& ResponseView::of(code, headers, text).body == text
        }),
{
}

/// The exchange of a request with a body, when every step goes through:
/// construct, begin with the body's length in bytes as content length, write
/// exactly that many bytes, send, read. The outcome is a response with the
/// status number and the body text exactly as received.
pub proof fn law_exchange_with_body(
    request: RequestView,
    code: u16,
    headers: Headers,
    text: Seq<char>,
)
    requires
        request.body is Some,
    ensures
        ({
            let body = request.body->Some_0;
            let constructing = ExchangeView::fresh(request);
            let beginning = constructing.after(EventView::Proceeded);
            let writing = beginning.after(EventView::Proceeded);
            let sending = writing.after(EventView::Proceeded);
            let reading = sending.after(EventView::Replied { code, headers });
            let done = reading.after(EventView::Delivered { text });
            &&& constructing.action() == ActionView::Construct {
                method: request.method,
                url: request.target.href(),
            }
            &&& beginning.action() == ActionView::Begin {
                content_length: byte_length(body),
                content_type: request.content_type,
            }
            &&& writing.action() == ActionView::WriteBody { bytes: encode_utf8(body) }
            &&& encode_utf8(body).len() == byte_length(body)
            &&& sending.action() == ActionView::Send
            &&& reading.action() == ActionView::ReadBody
            &&& done.action() == ActionView::Finish
            &&& done.outcome() == Some(
                Ok::<ResponseView, RestError>(ResponseView::of(code, headers, text)),
            )
        }),
{
}

} // verus!
