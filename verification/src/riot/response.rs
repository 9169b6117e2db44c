//! Checks applied to every answer of the Riot local, auth, PVP and GLZ APIs
//! and of the asset API, and the errors they report.
use vstd::prelude::*;

use vstd::utf8::{encode_utf8, is_ascii_chars, is_ascii_chars_encode_utf8};

use crate::codec::{base64_encode, check_header_value, header_byte_ok, is_visible_ascii, lemma_base64_visible};
use crate::models::lockfile::basic_authorization;
use crate::errors::{AppError, AppResult};
use crate::text::{chars_of, decimal, decimal_chars, push_all, push_str, string_of, take_chars, take_first, trim, trim_str};

verus! {

/// The API an answer came from.
#[derive(Debug, Clone, Copy, PartialEq, Eq)]
pub enum RiotApi {
    Local,
    Auth,
    Pvp,
    Glz,
    Assets,
}

/// Name of the API in the log lines.
pub open spec fn scope_text(api: RiotApi) -> Seq<char> {
    match api {
        RiotApi::Local => "riot-local"@,
        RiotApi::Auth => "riot-auth"@,
        RiotApi::Pvp => "riot-pvp"@,
        RiotApi::Glz => "riot-glz"@,
        RiotApi::Assets => "valorant-assets"@,
    }
}

/// Name of the API in the error messages.
pub open spec fn api_label(api: RiotApi) -> Seq<char> {
    match api {
        RiotApi::Local => "Riot Local API"@,
        RiotApi::Auth => "Riot auth API"@,
        RiotApi::Pvp => "PVP API"@,
        RiotApi::Glz => "GLZ API"@,
        RiotApi::Assets => "Valorant asset API"@,
    }
}

/// Whether an HTTP status is a success (2xx).
pub open spec fn status_ok(status: u16) -> bool {
    200 <= status <= 299
}

/// The message of an error status. The PVP and GLZ messages add the first
/// 120 characters of the body.
pub open spec fn status_message(api: RiotApi, path: Seq<char>, status: u16, body: Seq<char>) -> Seq<char> {
    let head = api_label(api) + " returned status "@ + decimal(status as nat) + " for "@ + path;
    match api {
        RiotApi::Pvp | RiotApi::Glz => head + ": "@ + take_chars(body, 120),
        _ => head,
    }
}

/// The message of an empty answer.
pub open spec fn empty_message(api: RiotApi, path: Seq<char>) -> Seq<char> {
    api_label(api) + " returned an empty response for "@ + path
}

/// Whether the API rejects an answer whose body is blank (the asset API
/// does not check).
pub open spec fn checks_empty_body(api: RiotApi) -> bool {
    !(api is Assets)
}

/// The error a body that could not be parsed is reported as.
pub open spec fn parse_failure_message(api: RiotApi, path: Seq<char>, error: Seq<char>, body: Seq<char>) -> Seq<char> {
    match api {
        RiotApi::Local => "failed to parse "@ + path + ": "@ + error + "; body starts with: "@ + take_chars(body, 120),
        RiotApi::Auth => "failed to parse auth "@ + path + ": "@ + error + "; body starts with: "@ + take_chars(body, 120),
        RiotApi::Pvp => "failed to parse PVP "@ + path + ": "@ + error + "; body starts with: "@ + take_chars(body, 120),
        RiotApi::Glz => "failed to parse GLZ "@ + path + ": "@ + error + "; body starts with: "@ + take_chars(body, 120),
        RiotApi::Assets => "failed to parse asset "@ + path + ": "@ + error,
    }
}

/// Name of the API in the log lines.
pub fn scope(api: RiotApi) -> (r: &'static str)
    ensures
        r@ == scope_text(api),
{
    match api {
        RiotApi::Local => "riot-local",
        RiotApi::Auth => "riot-auth",
        RiotApi::Pvp => "riot-pvp",
        RiotApi::Glz => "riot-glz",
        RiotApi::Assets => "valorant-assets",
    }
}

fn label(api: RiotApi) -> (r: &'static str)
    ensures
        r@ == api_label(api),
{
    match api {
        RiotApi::Local => "Riot Local API",
        RiotApi::Auth => "Riot auth API",
        RiotApi::Pvp => "PVP API",
        RiotApi::Glz => "GLZ API",
        RiotApi::Assets => "Valorant asset API",
    }
}

/// Checks an answer before its body is parsed: an error status, or (except
/// for the asset API) a blank body, means the session is not ready.
pub fn check_response(api: RiotApi, path: &str, status: u16, body: &str) -> (r: AppResult<()>)
    ensures
        !status_ok(status) ==> (r matches Err(e) && (e matches AppError::RiotSessionNotReady(m) && m@
            == status_message(api, path@, status, body@))),
        status_ok(status) && checks_empty_body(api) && trim(body@).len() == 0 ==> (r matches Err(e)
            && (e matches AppError::RiotSessionNotReady(m) && m@ == empty_message(api, path@))),
        status_ok(status) && !(checks_empty_body(api) && trim(body@).len() == 0) ==> r is Ok,
{
    if !(200 <= status && status <= 299) {
        let mut m: Vec<char> = Vec::new();
        push_str(&mut m, label(api));
        push_str(&mut m, " returned status ");
        let digits = decimal_chars(status as u128);
        push_all(&mut m, &digits);
        push_str(&mut m, " for ");
        push_str(&mut m, path);
        match api {
            RiotApi::Pvp | RiotApi::Glz => {
                push_str(&mut m, ": ");
                let b = chars_of(body);
                let cut = take_first(&b, 120);
                push_all(&mut m, &cut);
            },
            _ => {},
        }
        return Err(AppError::RiotSessionNotReady(string_of(&m)));
    }
    let blank = trim_str(body).len() == 0;
    match api {
        RiotApi::Assets => Ok(()),
        _ => {
            if blank {
                let mut m: Vec<char> = Vec::new();
                push_str(&mut m, label(api));
                push_str(&mut m, " returned an empty response for ");
                push_str(&mut m, path);
                Err(AppError::RiotSessionNotReady(string_of(&m)))
            } else {
                Ok(())
            }
        },
    }
}

/// The error reported for a body that could not be parsed into the
/// expected shape, with the parser's message.
pub fn parse_failure(api: RiotApi, path: &str, error: &str, body: &str) -> (r: AppError)
    ensures
        r matches AppError::InvalidResponse(m) && m@ == parse_failure_message(api, path@, error@, body@),
{
    let mut m: Vec<char> = Vec::new();
    match api {
        RiotApi::Local => push_str(&mut m, "failed to parse "),
        RiotApi::Auth => push_str(&mut m, "failed to parse auth "),
        RiotApi::Pvp => push_str(&mut m, "failed to parse PVP "),
        RiotApi::Glz => push_str(&mut m, "failed to parse GLZ "),
        RiotApi::Assets => push_str(&mut m, "failed to parse asset "),
    }
    push_str(&mut m, path);
    push_str(&mut m, ": ");
    push_str(&mut m, error);
    match api {
        RiotApi::Assets => {},
        _ => {
            push_str(&mut m, "; body starts with: ");
            let b = chars_of(body);
            let cut = take_first(&b, 120);
            push_all(&mut m, &cut);
        },
    }
    AppError::InvalidResponse(string_of(&m))
}

/// Whether `value` is accepted as an HTTP header value: each of its UTF-8
/// bytes may stand in one.
pub open spec fn header_value_ok(value: Seq<char>) -> bool {
    forall|i: int|
        0 <= i < encode_utf8(value).len() ==> header_byte_ok(#[trigger] encode_utf8(value)[i])
}

/// The message of a refused header value.
pub open spec fn header_error_message() -> Seq<char> {
    "failed to parse header value"@
}

/// A header `name: value`, once the value has been checked.
pub fn checked_header(name: &str, value: String) -> (r: AppResult<(String, String)>)
    ensures
        r is Ok <==> header_value_ok(value@),
        r matches Ok(h) ==> h.0@ == name@ && h.1 == value,
        r matches Err(e) ==> e matches AppError::Header(m) && m@ == header_error_message(),
{
    match check_header_value(value.as_str()) {
        Ok(()) => Ok((name.to_owned(), value)),
        Err(e) => Err(AppError::Header(e)),
    }
}

/// Visible ASCII text is always accepted as a header value.
pub proof fn lemma_visible_header_ok(value: Seq<char>)
    requires
        is_visible_ascii(value),
    ensures
        header_value_ok(value),
{
    assert(is_ascii_chars(value));
    is_ascii_chars_encode_utf8(value);
    assert forall|i: int| 0 <= i < encode_utf8(value).len() implies header_byte_ok(
        #[trigger] encode_utf8(value)[i],
    ) by {
        assert(value[i] as u8 == encode_utf8(value)[i]);
        assert(32 <= value[i] as int <= 126);
    }
}

/// The `Basic` header of a lockfile password is always a valid header
/// value, whatever the password: its credentials are base64-encoded.
pub proof fn law_basic_authorization_is_valid_header(password: Seq<char>)
    ensures
        header_value_ok(basic_authorization(password)),
{
    let enc = base64_encode(encode_utf8("riot:"@ + password));
    lemma_base64_visible(encode_utf8("riot:"@ + password));
    reveal_strlit("Basic ");
    let v = "Basic "@ + enc;
    assert forall|i: int| 0 <= i < v.len() implies 32 <= #[trigger] (v[i] as int) <= 126 by {
        if i >= 6 {
            assert(v[i] == enc[i - 6]);
        }
    }
    lemma_visible_header_ok(v);
}

} // verus!
