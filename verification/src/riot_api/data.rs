//! The credentials and identity the API clients share.
use vstd::prelude::*;

verus! {

/// Tokens of the Riot session and the lockfile credentials of the Local API.
#[derive(Debug, Clone, PartialEq, Eq)]
pub struct AuthToken {
    pub entitlements_token: String,
    pub access_token: String,
    pub lockfile_port: String,
    pub lockfile_password: String,
}

/// The signed-in player: PUUID, Riot ID and region.
#[derive(Debug, Clone, PartialEq, Eq)]
pub struct UserData {
    pub puuid: String,
    pub name: String,
    pub tag: String,
    pub region: String,
}

impl AuthToken {
    /// No token and no credentials yet.
    pub open spec fn is_empty(self) -> bool {
        &&& self.entitlements_token@.len() == 0
        &&& self.access_token@.len() == 0
        &&& self.lockfile_port@.len() == 0
        &&& self.lockfile_password@.len() == 0
    }
}

impl Default for AuthToken {
    fn default() -> (r: AuthToken)
        ensures
            r.is_empty(),
    {
        AuthToken {
            entitlements_token: String::new(),
            access_token: String::new(),
            lockfile_port: String::new(),
            lockfile_password: String::new(),
        }
    }
}

impl UserData {
    /// No player known yet.
    pub open spec fn is_empty(self) -> bool {
        &&& self.puuid@.len() == 0
        &&& self.name@.len() == 0
        &&& self.tag@.len() == 0
        &&& self.region@.len() == 0
    }

    /// The player's Riot ID, `name#tag`.
    pub fn full_username(&self) -> (r: String)
        ensures
            r@ == crate::models::auth::riot_id(self.name@, self.tag@),
    {
        crate::models::auth::riot_id_of(self.name.as_str(), self.tag.as_str())
    }
}

impl Default for UserData {
    fn default() -> (r: UserData)
        ensures
            r.is_empty(),
    {
        UserData { puuid: String::new(), name: String::new(), tag: String::new(), region: String::new() }
    }
}

} // verus!
