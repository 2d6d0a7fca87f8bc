//! The spot-market side of the client: response decoding, order form
//! building, and the user-stream event decoder.

pub mod client;
pub mod websocket;
