//! Core logic of the ValMonitor desktop companion: parsing of the Riot Client
//! lockfile, session bookkeeping for the local / auth / PVP APIs, request
//! construction for the Henrik API, response checks and the message texts
//! shown to the user.

pub mod text;
pub mod codec;
pub mod errors;
pub mod json;
pub mod models;
pub mod http_log;
pub mod string_map;
pub mod henrik;
pub mod riot;
pub mod riot_api;
pub mod riot_json;
pub mod discord_rpc;
pub mod app_config;
pub mod commands;
