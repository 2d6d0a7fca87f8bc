//! The derivatives-market side of the client: response decoding and the
//! streaming event decoder for its socket channels.

pub mod client;
pub mod websocket;
