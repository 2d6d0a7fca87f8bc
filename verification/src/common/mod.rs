//! The parts shared by both markets: the signing client core and the
//! stream-name builders.

pub mod client;
pub mod websocket;
