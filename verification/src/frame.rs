//! The inbound transport frames, as plain values, and the per-frame step a
//! receive loop takes: which frames are answered, which are decoded, and
//! which are skipped.

use vstd::prelude::*;

verus! {

/// An inbound socket frame, reduced to its plain content. Only text and ping
/// frames carry semantic meaning; the rest are skipped by the receive step.
#[derive(Debug)]
pub enum Frame {
    Text(String),
    Binary(Vec<u8>),
    Ping(Vec<u8>),
    Pong(Vec<u8>),
    Close,
}

/// What the receive loop must do for one inbound frame, before it reads the
/// next one: write the pong if one is owed, and hand the event, if any, to
/// the consumer. A failed pong write is non-fatal to the connection.
pub struct FrameStep<E> {
    pub pong: Option<Vec<u8>>,
    pub event: Option<E>,
}

} // verus!
