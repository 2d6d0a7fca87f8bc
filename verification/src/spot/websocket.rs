//! The user-stream event decoder for the spot market: dispatch on the
//! discriminator into execution reports and account updates, with every other
//! frame handed through undecoded.

use vstd::prelude::*;
use vstd::string::*;

use crate::frame::{Frame, FrameStep};
use crate::json::{parse_json, spec_get_str, spec_json_of, Json};
use crate::text::{spec_join, str_eq};

verus! {

pub const BASE_URL: &'static str = "wss://stream.binance.com:9443";

/// A decoded spot user-stream message: the two known event kinds, each
/// carrying the event's JSON object, and the undecoded frame for everything
/// else.
#[derive(Debug)]
pub enum Event {
    ExecutionReport(Json),
    AccountUpdate(Json),
    /// Undecoded frame: not text, not JSON, or not a recognized kind.
    Message(Frame),
}

/// Classifies one message object by the string value of its field `e`.
pub open spec fn spec_spot_classify(j: Json) -> Option<Event> {
    match spec_get_str(j, "e"@) {
        Some(e) => if e == "executionReport"@ {
            Some(Event::ExecutionReport(j))
        } else if e == "outboundAccountPosition"@ {
            Some(Event::AccountUpdate(j))
        } else {
            None
        },
        None => None,
    }
}

/// What decoding one frame must yield: a recognized text message becomes its
/// typed event; every other frame comes back as `Message`, unchanged.
pub open spec fn spec_spot_event(message: Frame, r: Event) -> bool {
    match message {
        Frame::Text(t) => match spec_json_of(t@) {
            Some(j) => match spec_spot_classify(j) {
                Some(event) => r == event,
                None => r == Event::Message(message),
            },
            None => r == Event::Message(message),
        },
        _ => r == Event::Message(message),
    }
}

/// The stateless per-message decoder for the spot user stream.
pub struct Decoder {}

impl Decoder {
    /// Decodes one inbound frame into exactly one event; nothing is dropped
    /// and no frame is an error.
    pub fn decode_event(&self, message: Frame) -> (r: Event)
        ensures
            spec_spot_event(message, r),
    {
        let parsed: Option<Json> = match &message {
            Frame::Text(t) => match parse_json(t.as_str()) {
                Ok(j) => Some(j),
                Err(_) => None,
            },
            _ => None,
        };
        match parsed {
            Some(j) => match self.decode_value(j) {
                Some(event) => event,
                None => Event::Message(message),
            },
            None => Event::Message(message),
        }
    }

    /// Dispatches one message object on its discriminator field `e`.
    pub fn decode_value(&self, value: Json) -> (r: Option<Event>)
        ensures
            r == spec_spot_classify(value),
    {
        let (k_exec, k_account) = match value.get_str("e") {
            Some(s) => {
                let e = s.as_str();
                (str_eq(e, "executionReport"), str_eq(e, "outboundAccountPosition"))
            },
            None => (false, false),
        };
        if k_exec {
            Some(Event::ExecutionReport(value))
        } else if k_account {
            Some(Event::AccountUpdate(value))
        } else {
            None
        }
    }

    /// The per-frame receive step: a ping is answered with a pong carrying
    /// the identical payload; text and ping frames are decoded; every other
    /// frame kind is skipped. No frame ever closes the connection.
    pub fn handle_frame(&self, frame: Frame) -> (r: FrameStep<Event>)
        ensures
            frame matches Frame::Ping(p) ==> {
                &&& (r.pong matches Some(q) && q@ == p@)
                &&& (r.event matches Some(ev) && ev matches Event::Message(Frame::Ping(d)) && d@
                    == p@)
            },
            frame matches Frame::Text(_) ==> r.pong is None,
            frame matches Frame::Text(t) ==> (r.event matches Some(ev) && spec_spot_event(
                frame,
                ev,
            )),
            !(frame matches Frame::Ping(_)) && !(frame matches Frame::Text(_)) ==> r.pong is None
                && r.event is None,
    {
        match frame {
            Frame::Ping(data) => {
                let pong = data.clone();
                proof {
                    assert(pong@ =~= data@);
                }
                FrameStep { pong: Some(pong), event: Some(self.decode_event(Frame::Ping(data))) }
            },
            Frame::Text(t) => FrameStep {
                pong: None,
                event: Some(self.decode_event(Frame::Text(t))),
            },
            _ => FrameStep { pong: None, event: None },
        }
    }
}

/// The connection URL for one subscription channel.
pub fn stream_url(name: &str) -> (r: String)
    ensures
        r@ == "wss://stream.binance.com:9443/ws/"@ + name@,
{
    let mut s = "wss://stream.binance.com:9443/ws/".to_owned();
    s.append(name);
    s
}

/// The connection URL for a combined subscription: the channel names joined
/// with `/` after the single stream path.
pub fn combined_stream_url(streams: &Vec<String>) -> (r: String)
    ensures
        r@ == "wss://stream.binance.com:9443/stream?streams="@ + spec_join(
            streams.deep_view(),
            "/"@,
        ),
{
    let mut s = "wss://stream.binance.com:9443/stream?streams=".to_owned();
    s.append(crate::text::join(streams, "/").as_str());
    s
}

} // verus!
