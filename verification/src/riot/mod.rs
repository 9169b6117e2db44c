//! The Riot session: the state kept while the Riot Client runs and the
//! decisions taken on the local, auth, PVP, GLZ and asset APIs.
pub mod assets;
pub mod auth;
pub mod local;
pub mod presence;
pub mod pvp;
pub mod response;
pub mod session;
pub mod watcher;
