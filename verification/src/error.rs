//! The failures of a capture and of its upload.

use vstd::prelude::*;
use vstd::string::*;
use crate::text::{decimal, decimal_text};

verus! {

/// Why no URL could be read from a response.
#[derive(Debug, Clone, Copy, PartialEq, Eq, Structural)]
pub enum ParseError {
    /// The response is no JSON document.
    MalformedJson,
    /// A segment of the path names no member, or what it is looked up in is
    /// no object.
    PathNotFound,
    /// The value at the path is no string.
    NotAString,
}

impl ParseError {
    /// What went wrong, in a few words.
    pub open spec fn spec_describe(self) -> Seq<char> {
        match self {
            ParseError::MalformedJson => "Invalid json"@,
            ParseError::PathNotFound => "Cannot find json value"@,
            ParseError::NotAString => "Cannot parse json value"@,
        }
    }

    /// What went wrong, in a few words.
    pub fn describe(&self) -> (text: &'static str)
        ensures
            text@ == self.spec_describe(),
    {
        match self {
            ParseError::MalformedJson => "Invalid json",
            ParseError::PathNotFound => "Cannot find json value",
            ParseError::NotAString => "Cannot parse json value",
        }
    }
}

/// An error which occurred while an image was located or uploaded.
#[derive(Debug, PartialEq, Eq)]
pub enum Error {
    /// The request could not be sent, or the response not be read; `0` is
    /// what the transport said of it.
    TransportFailed(String),
    /// The server answered with a status outside 200 to 299.
    NonSuccessStatus { status: u16, body: String },
    /// The response did not hold a URL where the parser statement `pattern`
    /// looks for one.
    ResponseParseFailed { reason: ParseError, pattern: String },
    /// The URI of a screenshot has an invalid format.
    UriCodec,
}

/// The mathematical value of an [`Error`].
pub enum Failure {
    TransportFailed(Seq<char>),
    NonSuccessStatus { status: u16, body: Seq<char> },
    ResponseParseFailed { reason: ParseError, pattern: Seq<char> },
    UriCodec,
}

impl View for Error {
    type V = Failure;

    open spec fn view(&self) -> Failure {
        match self {
            Error::TransportFailed(cause) => Failure::TransportFailed(cause@),
            Error::NonSuccessStatus { status, body } => Failure::NonSuccessStatus {
                status: *status,
                body: body@,
            },
            Error::ResponseParseFailed { reason, pattern } => Failure::ResponseParseFailed {
                reason: *reason,
                pattern: pattern@,
            },
            Error::UriCodec => Failure::UriCodec,
        }
    }
}

/// The message of a failure. That of a response that could not be parsed
/// names the parser statement.
pub open spec fn failure_message(failure: Failure) -> Seq<char> {
    match failure {
        Failure::TransportFailed(cause) => "Failed to make http request ("@ + cause + ")"@,
        Failure::NonSuccessStatus { status, body } =>
            "Server responded with non 200 status code: "@ + decimal(status as nat) + " ("@ + body
                + ")"@,
        Failure::ResponseParseFailed { reason, pattern } =>
            "Cannot parse response, is the url parser configured properly? ("@
                + reason.spec_describe() + ": "@ + pattern + ")"@,
        Failure::UriCodec => "Failed to encode/decode uri"@,
    }
}

impl Error {
    /// The message of the error, for a log or a notification.
    pub fn message(&self) -> (message: String)
        ensures
            message@ == failure_message(self@),
    {
        match self {
            Error::TransportFailed(cause) => {
                let mut message = String::from_str("Failed to make http request (");
                message.append(cause.as_str());
                message.append(")");
                message
            },
            Error::NonSuccessStatus { status, body } => {
                let mut message = String::from_str("Server responded with non 200 status code: ");
                message.append(decimal_text(*status).as_str());
                message.append(" (");
                message.append(body.as_str());
                message.append(")");
                message
            },
            Error::ResponseParseFailed { reason, pattern } => {
                let mut message = String::from_str(
                    "Cannot parse response, is the url parser configured properly? (",
                );
                message.append(reason.describe());
                message.append(": ");
                message.append(pattern.as_str());
                message.append(")");
                message
            },
            Error::UriCodec => String::from_str("Failed to encode/decode uri"),
        }
    }
}

/// The value of a result that holds a text or a [`ParseError`].
pub open spec fn parsed_view(result: Result<String, ParseError>) -> Result<Seq<char>, ParseError> {
    match result {
        Ok(text) => Ok(text@),
        Err(reason) => Err(reason),
    }
}

/// The value of a result that holds a text or an [`Error`].
pub open spec fn outcome_view(result: Result<String, Error>) -> Result<Seq<char>, Failure> {
    match result {
        Ok(text) => Ok(text@),
        Err(error) => Err(error@),
    }
}

} // verus!
