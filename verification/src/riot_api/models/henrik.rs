//! Shapes of the Henrik API account answer.
use vstd::prelude::*;


verus! {

/// The account document of the Henrik API.
#[derive(Debug, Clone)]
pub struct AccountData {
    pub puuid: String,
    pub region: String,
    pub account_level: i32,
    pub name: String,
    pub tag: String,
    pub card: String,
    pub title: String,
    pub platforms: Vec<String>,
    pub updated_at: String,
}

/// The answer of `/v2/by-puuid/account/{puuid}`.
#[derive(Debug, Clone)]
pub struct Account {
    pub status: i32,
    pub data: AccountData,
}

} // verus!
