//! Bundle submission through the Jito block engine.

pub mod client;
pub mod interceptor;
pub mod tip;
