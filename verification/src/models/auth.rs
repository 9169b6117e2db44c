//! Tokens and the account name of the signed-in player.
use vstd::prelude::*;

use crate::text::{push_str, string_of};

verus! {

/// The tokens and identity of the current Riot session.
#[derive(Debug, Clone, PartialEq, Eq)]
pub struct AuthSnapshot {
    pub access_token: String,
    pub entitlements_token: String,
    pub puuid: String,
    pub game_name: String,
    pub tag_line: String,
}

/// `name#tag`.
pub open spec fn riot_id(game_name: Seq<char>, tag_line: Seq<char>) -> Seq<char> {
    game_name + "#"@ + tag_line
}

/// `name#tag`.
pub fn riot_id_of(game_name: &str, tag_line: &str) -> (r: String)
    ensures
        r@ == riot_id(game_name@, tag_line@),
{
    let mut out: Vec<char> = Vec::new();
    push_str(&mut out, game_name);
    push_str(&mut out, "#");
    push_str(&mut out, tag_line);
    string_of(&out)
}

impl AuthSnapshot {
    /// The snapshot of no session: every field empty.
    pub open spec fn is_empty(self) -> bool {
        &&& self.access_token@.len() == 0
        &&& self.entitlements_token@.len() == 0
        &&& self.puuid@.len() == 0
        &&& self.game_name@.len() == 0
        &&& self.tag_line@.len() == 0
    }

    /// The player's Riot ID, `name#tag`.
    pub fn full_username(&self) -> (r: String)
        ensures
            r@ == riot_id(self.game_name@, self.tag_line@),
    {
        riot_id_of(self.game_name.as_str(), self.tag_line.as_str())
    }
}

impl Default for AuthSnapshot {
    fn default() -> (r: AuthSnapshot)
        ensures
            r.is_empty(),
    {
        AuthSnapshot {
            access_token: String::new(),
            entitlements_token: String::new(),
            puuid: String::new(),
            game_name: String::new(),
            tag_line: String::new(),
        }
    }
}

/// The answer of `/entitlements/v1/token`.
#[derive(Debug, Clone, PartialEq, Eq)]
pub struct EntitlementsResponse {
    pub access_token: String,
    pub token: String,
    pub subject: String,
}

/// The answer of `/userinfo`.
#[derive(Debug, Clone, PartialEq, Eq)]
pub struct UserInfoResponse {
    pub acct: AccountInfo,
}

/// The account part of `/userinfo`.
#[derive(Debug, Clone, PartialEq, Eq)]
pub struct AccountInfo {
    pub game_name: String,
    pub tag_line: String,
}

/// The snapshot of a session from its entitlements and user info.
pub fn snapshot_of(entitlements: EntitlementsResponse, userinfo: UserInfoResponse) -> (r: AuthSnapshot)
    ensures
        r.access_token == entitlements.access_token,
        r.entitlements_token == entitlements.token,
        r.puuid == entitlements.subject,
        r.game_name == userinfo.acct.game_name,
        r.tag_line == userinfo.acct.tag_line,
{
    AuthSnapshot {
        access_token: entitlements.access_token,
        entitlements_token: entitlements.token,
        puuid: entitlements.subject,
        game_name: userinfo.acct.game_name,
        tag_line: userinfo.acct.tag_line,
    }
}

} // verus!
