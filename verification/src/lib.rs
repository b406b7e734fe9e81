//! A Solana transaction control plane with its decisions verified.
pub mod agent;
pub mod config;
pub mod host;
pub mod jito;
pub mod json;
pub mod lifecycle;
pub mod networking;
pub mod policy;
pub mod report;
pub mod server;
pub mod solana;
pub mod stack;
pub mod text;
pub mod time;
pub mod tx_factory;
