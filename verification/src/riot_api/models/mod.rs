//! Shapes of the answers the API clients read.
pub mod asset;
pub mod henrik;
pub mod local;
pub mod matchlist;
pub mod pvp;
