//! A verified core for a cryptocurrency-exchange trading client.
//!
//! The crate covers the authenticated transport layer (request signing and
//! error-taxonomy decoding) and the streaming event decoder (combined-stream
//! demultiplexing, keepalive handling and tagged-event classification).
//! Network transport itself lives outside the library; callers hand in status
//! codes, bodies and frames, and receive typed results or classified errors.

pub mod common;
pub mod error;
pub mod frame;
pub mod futures;
pub mod json;
pub mod spot;
pub mod text;
pub mod types;

pub use error::Error;
pub use json::Json;
