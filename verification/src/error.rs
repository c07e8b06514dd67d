//! The library's error taxonomy.
//!
//! Every failure a caller can see is one of these variants; failures
//! raised by outside machinery (transport, credentials, the environment)
//! carry their description as plain text.

use vstd::prelude::*;

use crate::types::error::{VertexApiError, VertexApiErrorView};

verus! {

/// One failure of a call or of a stream.
#[derive(Debug, PartialEq)]
pub enum Error {
    /// An environment variable was missing or unreadable.
    Env(String),
    /// The HTTP transport failed before a body was read.
    HttpClient(String),
    /// The bearer-token supplier failed.
    Token(String),
    /// A body arrived but matches neither the success nor the error
    /// shape; carries the raw text for diagnostics.
    Serde(String),
    /// The service answered with a structured error envelope.
    VertexError(VertexApiError),
    /// A well-formed success envelope held no usable candidate text.
    NoCandidatesError,
    /// The streaming request could not be cloned to open the connection.
    CannotCloneRequestError(String),
    /// The server-sent-events connection failed.
    EventSourceError(String),
    /// The server-sent-events connection closed without a terminal chunk.
    EventSourceClosedError,
}

/// Mathematical image of [`Error`].
pub ghost enum ErrorView {
    Env(Seq<char>),
    HttpClient(Seq<char>),
    Token(Seq<char>),
    Serde(Seq<char>),
    VertexError(VertexApiErrorView),
    NoCandidatesError,
    CannotCloneRequestError(Seq<char>),
    EventSourceError(Seq<char>),
    EventSourceClosedError,
}

impl Error {
    /// One line describing the failure, as the library reports it.
    pub fn describe(&self) -> (r: String)
        ensures
            match self {
                Error::Env(s) => r@ == "Environment variable error: "@ + s@,
                Error::HttpClient(s) => r@ == "HTTP Client error: "@ + s@,
                Error::Token(s) => r@ == "Token error: "@ + s@,
                Error::Serde(s) => r@ == "Serde error: "@ + s@,
                Error::VertexError(e) => r@ == "Vertex error: Vertex API Error "@
                    + crate::json::spec_int_text(e.code as int) + " - "@ + e.message@,
                Error::NoCandidatesError => r@ == "No candidates returned for the prompt"@,
                Error::CannotCloneRequestError(s) => r@ == "Cannot clone request: "@ + s@,
                Error::EventSourceError(s) => r@ == "EventSource error: "@ + s@,
                Error::EventSourceClosedError => r@ == "EventSource closed error"@,
            },
    {
        match self {
            Error::Env(s) => {
                let mut r = String::from_str("Environment variable error: ");
                r.append(s.as_str());
                r
            },
            Error::HttpClient(s) => {
                let mut r = String::from_str("HTTP Client error: ");
                r.append(s.as_str());
                r
            },
            Error::Token(s) => {
                let mut r = String::from_str("Token error: ");
                r.append(s.as_str());
                r
            },
            Error::Serde(s) => {
                let mut r = String::from_str("Serde error: ");
                r.append(s.as_str());
                r
            },
            Error::VertexError(e) => {
                let mut r = String::from_str("Vertex error: ");
                let described = e.describe();
                r.append(described.as_str());
                proof {
                    reveal_strlit("Vertex error: ");
                    reveal_strlit("Vertex API Error ");
                    reveal_strlit("Vertex error: Vertex API Error ");
                    assert("Vertex error: "@.len() == 14);
                    assert("Vertex API Error "@.len() == 17);
                    assert("Vertex error: Vertex API Error "@.len() == 31);
                    assert("Vertex error: "@ + "Vertex API Error "@
                        =~= "Vertex error: Vertex API Error "@);
                }
                assert(r@ =~= "Vertex error: Vertex API Error "@ + crate::json::spec_int_text(
                    e.code as int,
                ) + " - "@ + e.message@);
                r
            },
            Error::NoCandidatesError => String::from_str("No candidates returned for the prompt"),
            Error::CannotCloneRequestError(s) => {
                let mut r = String::from_str("Cannot clone request: ");
                r.append(s.as_str());
                r
            },
            Error::EventSourceError(s) => {
                let mut r = String::from_str("EventSource error: ");
                r.append(s.as_str());
                r
            },
            Error::EventSourceClosedError => String::from_str("EventSource closed error"),
        }
    }
}

impl DeepView for Error {
    type V = ErrorView;

    open spec fn deep_view(&self) -> ErrorView {
        match self {
            Error::Env(s) => ErrorView::Env(s.deep_view()),
            Error::HttpClient(s) => ErrorView::HttpClient(s.deep_view()),
            Error::Token(s) => ErrorView::Token(s.deep_view()),
            Error::Serde(s) => ErrorView::Serde(s.deep_view()),
            Error::VertexError(e) => ErrorView::VertexError(e.deep_view()),
            Error::NoCandidatesError => ErrorView::NoCandidatesError,
            Error::CannotCloneRequestError(s) => ErrorView::CannotCloneRequestError(s.deep_view()),
            Error::EventSourceError(s) => ErrorView::EventSourceError(s.deep_view()),
            Error::EventSourceClosedError => ErrorView::EventSourceClosedError,
        }
    }
}

} // verus!
