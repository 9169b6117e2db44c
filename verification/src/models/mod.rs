//! Typed shapes of the Riot Client, Riot auth, PVP and asset responses.
pub mod assets;
pub mod auth;
pub mod lockfile;
pub mod presence;
pub mod pvp;
