//! Client side of the Henrik community API: settings, request construction
//! and response handling.
pub mod client;
pub mod endpoints;
pub mod settings;
