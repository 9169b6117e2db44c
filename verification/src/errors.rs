//! The error type shared by the Riot, Henrik and Discord services.
//!
//! Errors that come from outside crates (HTTP, I/O, environment, base64,
//! UTF-8, header values) carry the text those errors display, which is all
//! the user-facing message and the machine-readable kind need.
use vstd::prelude::*;

use crate::text::{decimal, decimal_chars, push_all, push_str, string_of};

verus! {

/// Every failure the commands can report to the UI.
#[derive(Debug, Clone, PartialEq, Eq)]
pub enum AppError {
    LockfileNotFound,
    RiotSessionNotReady(String),
    StorefrontUnavailable(String),
    InvalidResponse(String),
    RequestFailed(String),
    Io(String),
    Env(String),
    Base64(String),
    Utf8(String),
    Header(String),
    StatePoisoned(String),
    HenrikApiKeyMissing,
    HenrikRequestFailed { status: u16, body: String },
}

/// Result type of the library's fallible operations.
pub type AppResult<T> = Result<T, AppError>;

impl AppError {
    /// The machine-readable kind that the UI branches on.
    pub open spec fn kind_text(self) -> Seq<char> {
        match self {
            AppError::LockfileNotFound => "lockfileNotFound"@,
            AppError::RiotSessionNotReady(_) => "riotSessionNotReady"@,
            AppError::StorefrontUnavailable(_) => "storefrontUnavailable"@,
            AppError::InvalidResponse(_) => "invalidResponse"@,
            AppError::RequestFailed(_) => "requestFailed"@,
            AppError::Io(_) => "io"@,
            AppError::Env(_) => "environment"@,
            AppError::Base64(_) => "base64"@,
            AppError::Utf8(_) => "utf8"@,
            AppError::Header(_) => "header"@,
            AppError::StatePoisoned(_) => "statePoisoned"@,
            AppError::HenrikApiKeyMissing => "henrikApiKeyMissing"@,
            AppError::HenrikRequestFailed { .. } => "henrikRequestFailed"@,
        }
    }

    /// The human-readable message of the error.
    pub open spec fn message_text(self) -> Seq<char> {
        match self {
            AppError::LockfileNotFound => "Riot Client の lockfile が見つかりません"@,
            AppError::RiotSessionNotReady(s) => "Riot session is not ready yet: "@ + s@,
            AppError::StorefrontUnavailable(s) => "Riot Storefront is not available right now: "@
                + s@,
            AppError::InvalidResponse(s) => "Riot API のレスポンス形式が想定外です: "@ + s@,
            AppError::RequestFailed(s) => "HTTP request failed: "@ + s@,
            AppError::Io(s) => "IO failed: "@ + s@,
            AppError::Env(s) => "environment variable failed: "@ + s@,
            AppError::Base64(s) => "base64 decode failed: "@ + s@,
            AppError::Utf8(s) => "utf8 decode failed: "@ + s@,
            AppError::Header(s) => "header value is invalid: "@ + s@,
            AppError::StatePoisoned(s) => "shared state lock was poisoned: "@ + s@,
            AppError::HenrikApiKeyMissing => "Henrik API key が設定されていません。%APPDATA%\\ValMonitor\\api.txt に API key を保存してください"@,
            AppError::HenrikRequestFailed { status, body } => "Henrik API request failed with status "@
                + decimal(status as nat) + ": "@ + body@,
        }
    }

    /// The machine-readable kind of the error.
    pub fn kind(&self) -> (r: &'static str)
        ensures
            r@ == self.kind_text(),
    {
        match self {
            AppError::LockfileNotFound => "lockfileNotFound",
            AppError::RiotSessionNotReady(_) => "riotSessionNotReady",
            AppError::StorefrontUnavailable(_) => "storefrontUnavailable",
            AppError::InvalidResponse(_) => "invalidResponse",
            AppError::RequestFailed(_) => "requestFailed",
            AppError::Io(_) => "io",
            AppError::Env(_) => "environment",
            AppError::Base64(_) => "base64",
            AppError::Utf8(_) => "utf8",
            AppError::Header(_) => "header",
            AppError::StatePoisoned(_) => "statePoisoned",
            AppError::HenrikApiKeyMissing => "henrikApiKeyMissing",
            AppError::HenrikRequestFailed { .. } => "henrikRequestFailed",
        }
    }

    /// The message the error displays.
    pub fn message(&self) -> (r: String)
        ensures
            r@ == self.message_text(),
    {
        let mut out: Vec<char> = Vec::new();
        match self {
            AppError::LockfileNotFound => {
                push_str(&mut out, "Riot Client の lockfile が見つかりません");
            },
            AppError::RiotSessionNotReady(s) => {
                push_str(&mut out, "Riot session is not ready yet: ");
                push_str(&mut out, s.as_str());
            },
            AppError::StorefrontUnavailable(s) => {
                push_str(&mut out, "Riot Storefront is not available right now: ");
                push_str(&mut out, s.as_str());
            },
            AppError::InvalidResponse(s) => {
                push_str(&mut out, "Riot API のレスポンス形式が想定外です: ");
                push_str(&mut out, s.as_str());
            },
            AppError::RequestFailed(s) => {
                push_str(&mut out, "HTTP request failed: ");
                push_str(&mut out, s.as_str());
            },
            AppError::Io(s) => {
                push_str(&mut out, "IO failed: ");
                push_str(&mut out, s.as_str());
            },
            AppError::Env(s) => {
                push_str(&mut out, "environment variable failed: ");
                push_str(&mut out, s.as_str());
            },
            AppError::Base64(s) => {
                push_str(&mut out, "base64 decode failed: ");
                push_str(&mut out, s.as_str());
            },
            AppError::Utf8(s) => {
                push_str(&mut out, "utf8 decode failed: ");
                push_str(&mut out, s.as_str());
            },
            AppError::Header(s) => {
                push_str(&mut out, "header value is invalid: ");
                push_str(&mut out, s.as_str());
            },
            AppError::StatePoisoned(s) => {
                push_str(&mut out, "shared state lock was poisoned: ");
                push_str(&mut out, s.as_str());
            },
            AppError::HenrikApiKeyMissing => {
                push_str(
                    &mut out,
                    "Henrik API key が設定されていません。%APPDATA%\\ValMonitor\\api.txt に API key を保存してください",
                );
            },
            AppError::HenrikRequestFailed { status, body } => {
                push_str(&mut out, "Henrik API request failed with status ");
                let digits = decimal_chars(*status as u128);
                push_all(&mut out, &digits);
                push_str(&mut out, ": ");
                push_str(&mut out, body.as_str());
            },
        }
        string_of(&out)
    }

    /// Whether the error says that the Riot session is not ready yet.
    pub fn is_session_not_ready(&self) -> (r: bool)
        ensures
            r == (*self is RiotSessionNotReady),
    {
        match self {
            AppError::RiotSessionNotReady(_) => true,
            _ => false,
        }
    }
}

/// Builds an `InvalidResponse` error with the given text.
pub fn invalid_response(text: &str) -> (r: AppError)
    ensures
        r matches AppError::InvalidResponse(s) && s@ == text@,
{
    let cs = crate::text::chars_of(text);
    AppError::InvalidResponse(string_of(&cs))
}

/// Builds a `RiotSessionNotReady` error with the given text.
pub fn session_not_ready(text: &str) -> (r: AppError)
    ensures
        r matches AppError::RiotSessionNotReady(s) && s@ == text@,
{
    let cs = crate::text::chars_of(text);
    AppError::RiotSessionNotReady(string_of(&cs))
}


impl AppError {
    /// Position of the variant in the declaration of `AppError`.
    pub open spec fn variant_index(self) -> int {
        match self {
            AppError::LockfileNotFound => 0,
            AppError::RiotSessionNotReady(_) => 1,
            AppError::StorefrontUnavailable(_) => 2,
            AppError::InvalidResponse(_) => 3,
            AppError::RequestFailed(_) => 4,
            AppError::Io(_) => 5,
            AppError::Env(_) => 6,
            AppError::Base64(_) => 7,
            AppError::Utf8(_) => 8,
            AppError::Header(_) => 9,
            AppError::StatePoisoned(_) => 10,
            AppError::HenrikApiKeyMissing => 11,
            AppError::HenrikRequestFailed { .. } => 12,
        }
    }
}

/// The UI tells errors apart by kind alone: no two variants share one.
pub proof fn law_error_kinds_distinct(a: AppError, b: AppError)
    requires
        a.kind_text() == b.kind_text(),
    ensures
        a.variant_index() == b.variant_index(),
{
    reveal_strlit("lockfileNotFound");
    reveal_strlit("riotSessionNotReady");
    reveal_strlit("storefrontUnavailable");
    reveal_strlit("invalidResponse");
    reveal_strlit("requestFailed");
    reveal_strlit("io");
    reveal_strlit("environment");
    reveal_strlit("base64");
    reveal_strlit("utf8");
    reveal_strlit("header");
    reveal_strlit("statePoisoned");
    reveal_strlit("henrikApiKeyMissing");
    reveal_strlit("henrikRequestFailed");
    let ka = a.kind_text();
    let kb = b.kind_text();
    assert(ka.len() == kb.len());
    assert(ka[0] == kb[0]);
    if ka.len() == 19 {
        assert(ka[6] == kb[6]);
    }
}

} // verus!
