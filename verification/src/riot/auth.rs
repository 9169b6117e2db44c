//! The Riot auth API: its address and the bearer header of a session.
use vstd::prelude::*;

use crate::errors::AppResult;
use crate::riot::response::checked_header;
use crate::text::concat2;

verus! {

/// `Bearer <access token>`.
pub open spec fn bearer_value(access_token: Seq<char>) -> Seq<char> {
    "Bearer "@ + access_token
}

/// The address of `path` on the Riot auth API.
pub fn auth_url(path: &str) -> (r: String)
    ensures
        r@ == "https://auth.riotgames.com"@ + path@,
{
    concat2("https://auth.riotgames.com", path)
}

/// The `Authorization` header of an auth session.
pub fn bearer_authorization(access_token: &str) -> (r: AppResult<(String, String)>)
    ensures
        r is Ok <==> crate::riot::response::header_value_ok(bearer_value(access_token@)),
        r matches Ok(h) ==> h.0@ == "Authorization"@ && h.1@ == bearer_value(access_token@),
        r matches Err(e) ==> e matches crate::errors::AppError::Header(m) && m@
            == crate::riot::response::header_error_message(),
{
    checked_header("Authorization", concat2("Bearer ", access_token))
}

} // verus!
