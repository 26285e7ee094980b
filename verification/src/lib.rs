//! The core of a small REST client: it turns a method, a URL, optional query
//! parameters and an optional body into one well-formed outbound request, and
//! follows the exchange with the transport step by step until it ends in one
//! response or one error.

pub mod client;
pub mod error;
pub mod exchange;
pub mod form;
pub mod method;
pub mod request;
pub mod response;
pub mod status;
pub mod target;
pub mod text;

pub use client::RestClient;
pub use error::RestError;
pub use exchange::{Action, Event, Exchange};
pub use method::Method;
pub use request::Request;
pub use response::Response;
pub use status::{Status, StatusClass};
pub use target::Target;
