//! The answer of a request and the errors of the API clients.
use vstd::prelude::*;
use vstd::utf8::{decode_utf8, valid_utf8};

use crate::codec::{utf8_error_text, utf8_string};
use crate::text::{concat2, decimal, decimal_chars, push_all, push_str, string_of};

verus! {

/// Why a request of an API client failed.
#[derive(Debug, Clone, PartialEq, Eq)]
pub enum RequestError {
    /// The HTTP exchange failed; holds the message of the transport error.
    Request(String),
    /// The answer had this status.
    FailedWithStatus(u16),
    /// The body was not the JSON document expected; holds the parser's message.
    Json(String),
    /// Anything else, with its message.
    Unknown(String),
}

/// The text an HTTP status shows: its code and, for a code with a
/// registered meaning, the reason phrase.
pub uninterp spec fn status_display(code: u16) -> Seq<char>;

/// `reqwest::StatusCode` displayed: the code, a space and the canonical
/// reason phrase (`<unknown status code>` for a code without one). Codes
/// from 100 to 999 are the ones a `StatusCode` can hold.
#[verifier::external_body]
fn status_text(code: u16) -> (r: String)
    requires
        100 <= code <= 999,
    ensures
        r@ == status_display(code),
{
    match reqwest::StatusCode::from_u16(code) {
        Ok(status) => status.to_string(),
        Err(_) => String::new(),
    }
}

impl RequestError {
    /// The message the error displays.
    pub open spec fn message_text(self) -> Seq<char> {
        match self {
            RequestError::Request(s) => "request failed: "@ + s@,
            RequestError::FailedWithStatus(code) => "request failed with status code: "@
                + status_display(code),
            RequestError::Json(s) => "json parse failed: "@ + s@,
            RequestError::Unknown(s) => "An error has occurred: "@ + s@,
        }
    }

    /// Whether the error can be displayed: a status error holds a code
    /// that `StatusCode` accepts.
    pub open spec fn wf(self) -> bool {
        self matches RequestError::FailedWithStatus(code) ==> 100 <= code <= 999
    }

    /// The message the error displays.
    pub fn message(&self) -> (r: String)
        requires
            self.wf(),
        ensures
            r@ == self.message_text(),
    {
        match self {
            RequestError::Request(s) => concat2("request failed: ", s.as_str()),
            RequestError::FailedWithStatus(code) => {
                let text = status_text(*code);
                concat2("request failed with status code: ", text.as_str())
            },
            RequestError::Json(s) => concat2("json parse failed: ", s.as_str()),
            RequestError::Unknown(s) => concat2("An error has occurred: ", s.as_str()),
        }
    }
}

/// `RequestError::Unknown` with the given text.
pub fn unknown(text: &str) -> (r: RequestError)
    ensures
        r matches RequestError::Unknown(m) && m@ == text@,
{
    RequestError::Unknown(text.to_owned())
}

/// The status and body of an answer.
#[derive(Debug, Clone)]
pub struct RiotResponse {
    pub bytes: Vec<u8>,
    pub status: u16,
}

impl RiotResponse {
    /// The body as text; fails on a body that is not UTF-8, with the
    /// decoder's message.
    pub fn get_text(&self) -> (r: Result<String, String>)
        ensures
            valid_utf8(self.bytes@) ==> (r matches Ok(s) && s@ == decode_utf8(self.bytes@)),
            !valid_utf8(self.bytes@) ==> (r matches Err(e) && e@ == utf8_error_text(self.bytes@)),
    {
        let bytes = self.bytes.clone();
        assert(bytes@ =~= self.bytes@);
        utf8_string(bytes)
    }
}

} // verus!
