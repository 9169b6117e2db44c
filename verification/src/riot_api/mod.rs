//! The API clients of the Riot Local, PVP and GLZ APIs, valorant-api.com
//! and the Henrik API, which share a player, tokens and a reset flag.
pub mod asset_client;
pub mod monitor;
pub mod data;
pub mod henrik_client;
pub mod local_client;
pub mod models;
pub mod pvp_client;
pub mod response;
pub mod shared;
