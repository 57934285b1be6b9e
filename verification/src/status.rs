//! HTTP status codes as the gateway reports them.

use vstd::prelude::*;
use vstd::string::*;
use crate::text::{decimal, decimal_text};

verus! {

/// The reason phrase that the `http` crate knows for a status code, if any.
pub uninterp spec fn reason_phrase(code: u16) -> Option<Seq<char>>;

/// The characters of an optional piece of text.
pub open spec fn option_text(text: Option<String>) -> Option<Seq<char>> {
    match text {
        Some(t) => Some(t@),
        None => None,
    }
}

/// The text after the number when a status without a known phrase is displayed.
pub open spec fn unknown_phrase() -> Seq<char> {
    "<unknown status code>"@
}

/// How a status code is displayed: the number, a space, and the reason phrase.
pub open spec fn status_text(code: u16) -> Seq<char> {
    decimal_text(code as nat) + " "@ + match reason_phrase(code) {
        Some(phrase) => phrase,
        None => unknown_phrase(),
    }
}

/// Trusted: `http::StatusCode::canonical_reason`, reached as
/// `reqwest::StatusCode`. The contract only gives the phrase a name,
/// `reason_phrase`; the table of phrases itself lives in the `http` crate.
/// Codes outside 100..=999 are no status codes and are left out.
#[verifier::external_body]
fn canonical_reason(code: u16) -> (phrase: Option<String>)
    requires
        100 <= code <= 999,
    ensures
        option_text(phrase) == reason_phrase(code),
{
    match reqwest::StatusCode::from_u16(code) {
        Ok(status) => status.canonical_reason().map(|p| p.to_string()),
        Err(_) => None,
    }
}

/// A three-digit HTTP status code.
#[derive(Clone, Copy, Debug, PartialEq, Eq)]
pub struct HttpStatus {
    code: u16,
}

impl View for HttpStatus {
    type V = u16;

    closed spec fn view(&self) -> u16 {
        self.code
    }
}

impl HttpStatus {
    #[verifier::type_invariant]
    spec fn three_digits(self) -> bool {
        100 <= self.code <= 999
    }

    /// Accepts exactly the codes from 100 to 999.
    pub fn from_u16(code: u16) -> (status: Option<HttpStatus>)
        ensures
            status is Some <==> 100 <= code <= 999,
            status matches Some(s) ==> s@ == code,
    {
        if 100 <= code && code <= 999 {
            Some(HttpStatus { code })
        } else {
            None
        }
    }

    /// 200 OK.
    pub fn ok() -> (status: HttpStatus)
        ensures
            status@ == 200,
    {
        HttpStatus { code: 200 }
    }

    /// 401 Unauthorized.
    pub fn unauthorized() -> (status: HttpStatus)
        ensures
            status@ == 401,
    {
        HttpStatus { code: 401 }
    }

    /// 404 Not Found.
    pub fn not_found() -> (status: HttpStatus)
        ensures
            status@ == 404,
    {
        HttpStatus { code: 404 }
    }

    /// The numeric code, always three digits.
    pub fn as_u16(&self) -> (code: u16)
        ensures
            code == self@,
            100 <= code <= 999,
    {
        proof {
            use_type_invariant(self);
        }
        self.code
    }

    /// The status as shown to a reader: number and reason phrase.
    pub fn to_text(&self) -> (text: String)
        ensures
            text@ == status_text(self@),
    {
        let code = self.as_u16();
        let number = decimal(code as u64);
        let numbered = number.concat(" ");
        match canonical_reason(code) {
            Some(phrase) => numbered.concat(phrase.as_str()),
            None => numbered.concat("<unknown status code>"),
        }
    }

    /// The status as shown when debugging: the bare number.
    pub fn debug_text(&self) -> (text: String)
        ensures
            text@ == decimal_text(self@ as nat),
    {
        decimal(self.as_u16() as u64)
    }
}

} // verus!
