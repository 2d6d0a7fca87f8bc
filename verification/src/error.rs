//! The error taxonomy the decoders surface to callers.
//!
//! Transport-level failures (connection, TLS, DNS) never reach this type:
//! they stay with the code that owns the transport. What the library
//! classifies is everything that can be decided from plain values: parse
//! failures on success bodies, classified remote API errors, and a signing
//! path invoked without credentials.

use vstd::prelude::*;

use crate::futures::client::ApiError;

verus! {

/// A classified failure of a request, decoding, or signing step.
#[derive(Debug)]
pub enum Error {
    /// A JSON body did not have the expected shape; carries a description.
    Serde(String),
    /// A success-status body failed to parse; keeps the failure description
    /// and the original response text.
    Decode { error: String, text: String },
    /// An error sent from the remote API in response to a request.
    ApiError(ApiError),
    /// A signing path was invoked on a client built without credentials.
    MissingCredentials,
}

} // verus!
