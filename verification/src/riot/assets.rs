//! valorant-api.com: the addresses of its documents and the error of an
//! asset client that could not be built.
use vstd::prelude::*;

use crate::errors::AppError;
use crate::text::concat2;

verus! {

/// The path of the version document.
pub const VERSION_PATH: &'static str = "/v1/version";

/// The user agent the asset client announces.
pub const ASSET_USER_AGENT: &'static str = "ValMonitor";

/// The address of `path` on valorant-api.com.
pub fn asset_url(path: &str) -> (r: String)
    ensures
        r@ == "https://valorant-api.com"@ + path@,
{
    concat2("https://valorant-api.com", path)
}

/// The path of a player card.
pub fn playercard_path(id: &str) -> (r: String)
    ensures
        r@ == "/v1/playercards/"@ + id@,
{
    concat2("/v1/playercards/", id)
}

/// The error reported when the asset client could not be built; `error`
/// is the message of the builder's error.
pub fn asset_client_error(error: &str) -> (r: AppError)
    ensures
        r matches AppError::InvalidResponse(m) && m@ == "failed to build asset client: "@ + error@,
{
    AppError::InvalidResponse(concat2("failed to build asset client: ", error))
}

} // verus!
