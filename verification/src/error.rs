//! The ways a send can fail.

use vstd::prelude::*;
use vstd::string::*;
use crate::status::{status_text, HttpStatus};
use crate::text::decimal_text;

verus! {

/// Why a message was not confirmed as sent.
#[derive(Clone, Debug, PartialEq, Eq)]
pub enum SmsError {
    /// An unexpected HTTP status, or the device never confirmed the send.
    UnknownError(String),
    /// The device could not be reached; holds the transport's description.
    NetworkError(String),
    /// The device answered with a status that has a known meaning.
    InvalidResponse(HttpStatus, String),
    /// The answer's body was not the expected JSON; holds the decoder's
    /// description of what went wrong.
    ResponseParseError(String),
}

/// An `SmsError` with its texts as sequences of characters.
pub enum SmsErrorView {
    UnknownError(Seq<char>),
    NetworkError(Seq<char>),
    InvalidResponse(u16, Seq<char>),
    ResponseParseError(Seq<char>),
}

impl View for SmsError {
    type V = SmsErrorView;

    open spec fn view(&self) -> SmsErrorView {
        match *self {
            SmsError::UnknownError(m) => SmsErrorView::UnknownError(m@),
            SmsError::NetworkError(m) => SmsErrorView::NetworkError(m@),
            SmsError::InvalidResponse(s, m) => SmsErrorView::InvalidResponse(s@, m@),
            SmsError::ResponseParseError(m) => SmsErrorView::ResponseParseError(m@),
        }
    }
}

/// The outcome of a send with the error's texts as sequences of characters.
pub open spec fn outcome_view(outcome: Result<(), SmsError>) -> Result<(), SmsErrorView> {
    match outcome {
        Ok(_) => Ok(()),
        Err(e) => Err(e@),
    }
}

/// How text is shown when debugging: quoted, with special characters escaped,
/// as the standard library does it for `str`.
pub uninterp spec fn debug_quoted(text: Seq<char>) -> Seq<char>;

/// Trusted: `<str as core::fmt::Debug>::fmt`. The contract only gives the
/// quoted form a name, `debug_quoted`; the escaping rules are the standard
/// library's.
#[verifier::external_body]
fn quote(text: &str) -> (quoted: String)
    ensures
        quoted@ == debug_quoted(text@),
{
    format!("{:?}", text)
}

impl SmsErrorView {
    /// The message for a reader.
    pub open spec fn text(self) -> Seq<char> {
        match self {
            SmsErrorView::UnknownError(m) => "Something went wrong "@ + m,
            SmsErrorView::NetworkError(m) => "Network error: "@ + m,
            SmsErrorView::InvalidResponse(code, m) => "Invalid response: status "@ + status_text(
                code,
            ) + ", message "@ + m,
            SmsErrorView::ResponseParseError(_) => "Could not parse json"@,
        }
    }

    /// The variant's name with its fields in brackets, texts quoted.
    pub open spec fn debug_text(self) -> Seq<char> {
        match self {
            SmsErrorView::UnknownError(m) => "UnknownError("@ + debug_quoted(m) + ")"@,
            SmsErrorView::NetworkError(m) => "NetworkError("@ + debug_quoted(m) + ")"@,
            SmsErrorView::InvalidResponse(code, m) => "InvalidResponse("@ + decimal_text(
                code as nat,
            ) + ", "@ + debug_quoted(m) + ")"@,
            SmsErrorView::ResponseParseError(detail) => "ResponseParseError("@ + detail + ")"@,
        }
    }
}

impl SmsError {
    /// The message for a reader.
    pub fn to_text(&self) -> (text: String)
        ensures
            text@ == self@.text(),
    {
        match self {
            SmsError::UnknownError(m) => String::from_str("Something went wrong ").concat(
                m.as_str(),
            ),
            SmsError::NetworkError(m) => String::from_str("Network error: ").concat(m.as_str()),
            SmsError::InvalidResponse(status, m) => {
                let shown = status.to_text();
                String::from_str("Invalid response: status ").concat(shown.as_str()).concat(
                    ", message ",
                ).concat(m.as_str())
            },
            SmsError::ResponseParseError(_) => String::from_str("Could not parse json"),
        }
    }

    /// The error as shown when debugging. A parse error shows the decoder's
    /// description as it was handed in.
    pub fn debug_text(&self) -> (text: String)
        ensures
            text@ == self@.debug_text(),
    {
        match self {
            SmsError::UnknownError(m) => {
                let quoted = quote(m.as_str());
                String::from_str("UnknownError(").concat(quoted.as_str()).concat(")")
            },
            SmsError::NetworkError(m) => {
                let quoted = quote(m.as_str());
                String::from_str("NetworkError(").concat(quoted.as_str()).concat(")")
            },
            SmsError::InvalidResponse(status, m) => {
                let number = status.debug_text();
                let quoted = quote(m.as_str());
                String::from_str("InvalidResponse(").concat(number.as_str()).concat(", ").concat(
                    quoted.as_str(),
                ).concat(")")
            },
            SmsError::ResponseParseError(detail) => String::from_str(
                "ResponseParseError(",
            ).concat(detail.as_str()).concat(")"),
        }
    }
}

} // verus!
