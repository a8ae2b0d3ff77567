//! The dispatch layer's error taxonomy. Every error carries enough to
//! build a one-line report: a fixed "when <doing X>" context naming the
//! boundary where it was detected, then the cause.
#![allow(unused_imports)]

use vstd::prelude::*;
use vstd::string::*;

verus! {

/// Everything this layer can fail with. Nothing is retried: each error is
/// surfaced unchanged to the caller.
#[derive(Debug, Clone)]
pub enum Error {
    /// The resource locator was empty.
    MalformedLocator { locator: String },
    /// The effective REST path had no characters.
    EmptyPath,
    /// A supplied request body was not valid JSON.
    InvalidJson { text: String },
    /// An event category outside the closed set the service offers.
    UnknownEventType { name: String },
    /// The connector could not reach the service.
    Connection { message: String },
    /// The connector failed while a REST request was in flight.
    Transport { message: String },
    /// An inbound event frame did not have the expected shape.
    MalformedFrame,
    /// The event stream failed while a frame was awaited.
    StreamTransport { message: String },
    /// A value could not be rendered for the terminal.
    Render { message: String },
}

/// The one-line report for each error: its fixed context, then its cause.
pub open spec fn spec_message(e: Error) -> Seq<char> {
    match e {
        Error::MalformedLocator { locator } => "when processing path: "@ + locator@,
        Error::EmptyPath => "when processing rest path: empty path"@,
        Error::InvalidJson { .. } => "when serializing body: Bad JSON input"@,
        Error::UnknownEventType { name } => "when processing websocket event: "@ + name@,
        Error::Connection { message } => "when connecting to the LCU: "@ + message@,
        Error::Transport { message } => "when processing LCU request: "@ + message@,
        Error::MalformedFrame => "when processing websocket: malformed event frame"@,
        Error::StreamTransport { message } => "when processing websocket: "@ + message@,
        Error::Render { message } => "when pretty printing JSON: "@ + message@,
    }
}

impl Error {
    /// Render the error as its one-line report.
    pub fn message(&self) -> (r: String)
        ensures
            r@ == spec_message(*self),
    {
        match self {
            Error::MalformedLocator { locator } => {
                let mut s = String::from_str("when processing path: ");
                s.append(locator.as_str());
                s
            },
            Error::EmptyPath => String::from_str("when processing rest path: empty path"),
            Error::InvalidJson { .. } => String::from_str("when serializing body: Bad JSON input"),
            Error::UnknownEventType { name } => {
                let mut s = String::from_str("when processing websocket event: ");
                s.append(name.as_str());
                s
            },
            Error::Connection { message } => {
                let mut s = String::from_str("when connecting to the LCU: ");
                s.append(message.as_str());
                s
            },
            Error::Transport { message } => {
                let mut s = String::from_str("when processing LCU request: ");
                s.append(message.as_str());
                s
            },
            Error::MalformedFrame => String::from_str(
                "when processing websocket: malformed event frame",
            ),
            Error::StreamTransport { message } => {
                let mut s = String::from_str("when processing websocket: ");
                s.append(message.as_str());
                s
            },
            Error::Render { message } => {
                let mut s = String::from_str("when pretty printing JSON: ");
                s.append(message.as_str());
                s
            },
        }
    }
}

} // verus!
