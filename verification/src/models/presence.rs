//! Shapes of the chat presence and external session responses.
use vstd::prelude::*;

use crate::json::JsonValue;

verus! {

/// The answer of `/chat/v4/presences`.
#[derive(Debug)]
pub struct PresenceResponse {
    pub presences: Vec<PresenceEntry>,
}

/// One presence; members beyond `puuid` and `private` are kept in `extra`.
#[derive(Debug)]
pub struct PresenceEntry {
    pub puuid: String,
    pub private: Option<String>,
    pub extra: Vec<(String, JsonValue)>,
}

/// A product session of `/product-session/v1/external-sessions`.
#[derive(Debug, Clone, PartialEq, Eq)]
pub struct ExternalSession {
    pub launch_configuration: LaunchConfiguration,
}

/// The launch configuration of a product session.
#[derive(Debug, Clone, PartialEq, Eq)]
pub struct LaunchConfiguration {
    pub arguments: Vec<String>,
}

} // verus!
