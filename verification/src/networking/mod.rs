//! The stream of slots, blockhashes and transaction statuses.

pub mod geyser;
