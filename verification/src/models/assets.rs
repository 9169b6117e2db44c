//! Shapes of the valorant-api.com asset responses.
use vstd::prelude::*;

use crate::json::JsonValue;

verus! {

/// The `{ "data": ... }` envelope of valorant-api.com.
pub struct ValorantApiDataResponse<T> {
    pub data: T,
}

/// The data of `/v1/version`.
#[derive(Debug, Clone, PartialEq, Eq)]
pub struct ValorantVersionData {
    pub riot_client_version: String,
}

/// The data of `/v1/playercards/{id}`; members beyond the named ones are
/// kept in `extra`.
#[derive(Debug)]
pub struct PlayerCardData {
    pub uuid: Option<String>,
    pub display_name: Option<String>,
    pub display_icon: Option<String>,
    pub small_art: Option<String>,
    pub wide_art: Option<String>,
    pub large_art: Option<String>,
    pub extra: Vec<(String, JsonValue)>,
}

} // verus!
