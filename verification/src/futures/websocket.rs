//! The streaming event decoder for the derivatives market: combined-stream
//! demultiplexing, discriminator dispatch into a closed set of event kinds,
//! and the per-frame keepalive step.
//!
//! Every inbound text frame produces exactly one event: recognized payloads
//! become their typed variant, unrecognized but well-formed messages fall
//! through to `Unknown`, and texts that are not JSON become `ParseError`.
//! Malformed data never kills the connection.

use vstd::prelude::*;
use vstd::string::*;

use crate::frame::{Frame, FrameStep};
use crate::json::{parse_json, spec_get, spec_get_str, spec_json_err_of, spec_json_of, Json};
use crate::text::{spec_join, str_eq};

verus! {

pub const BASE_URL: &'static str = "wss://fstream.binance.com";

/// A decoded inbound message: the closed set of known business event kinds,
/// each carrying the event's JSON object, plus the three escape hatches — an
/// unrecognized but well-formed message, a parse failure keeping the original
/// text, and a raw undecoded frame.
///
/// A recognized variant carries the raw object; reading a per-field typed
/// shape out of it is the caller's step, and a shape mismatch is the
/// caller's failure, not a decoder event.
#[derive(Debug)]
pub enum Event {
    /// Undecoded frame, for payloads the decoder does not touch.
    Message(Frame),
    /// Kline/OHLC event.
    Kline(Json),
    /// Aggregate trade event.
    AggTrade(Json),
    /// Order update event (user stream).
    OrderTradeUpdate(Json),
    /// Account update event (user stream).
    AccountUpdate(Json),
    /// Public liquidation event, carrying the order object.
    LiquidationEvent(Json),
    /// Rolling 24-hour ticker event.
    Ticker(Json),
    /// A decode failure: the description and the input that failed.
    ParseError(String, String),
    /// A well-formed message whose discriminator is not a known kind.
    Unknown(String),
    /// Transport ping, surfaced for visibility; the keepalive step already
    /// answers it.
    Ping(Vec<u8>),
}

/// How one event object classifies by its discriminator field `e`: a known
/// kind with its payload, an unrecognized message, or a fault (a liquidation
/// event without its order object).
pub enum Classification {
    Fault,
    Unrecognized,
    Kline(Json),
    AggTrade(Json),
    OrderTradeUpdate(Json),
    AccountUpdate(Json),
    Liquidation(Json),
    Ticker(Json),
}

/// Classifies one event object by the string value of its field `e`.
pub open spec fn spec_classify(j: Json) -> Classification {
    match spec_get_str(j, "e"@) {
        Some(e) => if e == "kline"@ {
            Classification::Kline(j)
        } else if e == "aggTrade"@ {
            Classification::AggTrade(j)
        } else if e == "ORDER_TRADE_UPDATE"@ {
            Classification::OrderTradeUpdate(j)
        } else if e == "ACCOUNT_UPDATE"@ {
            Classification::AccountUpdate(j)
        } else if e == "forceOrder"@ {
            match spec_get(j, "o"@) {
                Some(order) => Classification::Liquidation(order),
                None => Classification::Fault,
            }
        } else if e == "24hrTicker"@ {
            Classification::Ticker(j)
        } else {
            Classification::Unrecognized
        },
        None => Classification::Unrecognized,
    }
}

/// True when `j` is a combined-stream envelope: a string `stream` field and a
/// nested `data` object carrying its own string discriminator.
pub open spec fn spec_is_envelope(j: Json) -> bool {
    &&& spec_get_str(j, "stream"@) is Some
    &&& match spec_get(j, "data"@) {
        Some(d) => spec_get_str(d, "e"@) is Some,
        None => false,
    }
}

/// Classifies a whole inbound message: an envelope is unwrapped to its nested
/// data object and classified there; a bare object with a discriminator is
/// classified directly; anything else is unrecognized.
pub open spec fn spec_decode_value(j: Json) -> Classification {
    if spec_is_envelope(j) {
        spec_classify(spec_get(j, "data"@)->0)
    } else if spec_get_str(j, "e"@) is Some {
        spec_classify(j)
    } else {
        Classification::Unrecognized
    }
}

/// The event a classification yields, when it yields one.
pub open spec fn spec_class_event(c: Classification) -> Option<Event> {
    match c {
        Classification::Fault => None,
        Classification::Unrecognized => None,
        Classification::Kline(p) => Some(Event::Kline(p)),
        Classification::AggTrade(p) => Some(Event::AggTrade(p)),
        Classification::OrderTradeUpdate(p) => Some(Event::OrderTradeUpdate(p)),
        Classification::AccountUpdate(p) => Some(Event::AccountUpdate(p)),
        Classification::Liquidation(p) => Some(Event::LiquidationEvent(p)),
        Classification::Ticker(p) => Some(Event::Ticker(p)),
    }
}

/// What decoding one text frame must yield: exactly one event, a function of
/// the text alone. Unparseable text is kept in a `ParseError` with the
/// parser's own description, unrecognized messages are kept in an `Unknown`,
/// and each recognized payload goes in its own variant.
pub open spec fn spec_text_event(text: Seq<char>, r: Event) -> bool {
    match spec_json_of(text) {
        None => (r matches Event::ParseError(d, t) && d@ == spec_json_err_of(text) && t@ == text),
        Some(j) => match spec_decode_value(j) {
            Classification::Fault => (r matches Event::ParseError(d, t) && d@
                == "forceOrder event without its order object o"@ && t@ == text),
            Classification::Unrecognized => (r matches Event::Unknown(t) && t@ == text),
            Classification::Kline(p) => r == Event::Kline(p),
            Classification::AggTrade(p) => r == Event::AggTrade(p),
            Classification::OrderTradeUpdate(p) => r == Event::OrderTradeUpdate(p),
            Classification::AccountUpdate(p) => r == Event::AccountUpdate(p),
            Classification::Liquidation(p) => r == Event::LiquidationEvent(p),
            Classification::Ticker(p) => r == Event::Ticker(p),
        },
    }
}

impl Event {
    /// Decodes one inbound text or ping frame into exactly one event.
    pub fn decode_message(message: Frame) -> (r: Event)
        requires
            message matches Frame::Text(_) || message matches Frame::Ping(_),
        ensures
            message matches Frame::Ping(p) ==> r == Event::Ping(p),
            message matches Frame::Text(t) ==> spec_text_event(t@, r),
    {
        match message {
            Frame::Text(t) => match parse_json(t.as_str()) {
                Ok(j) => match Self::decode_value(j) {
                    Ok(Some(event)) => event,
                    Ok(None) => Event::Unknown(t),
                    Err(fault) => Event::ParseError(fault, t),
                },
                Err(e) => Event::ParseError(e, t),
            },
            Frame::Ping(data) => Event::Ping(data),
            _ => vstd::pervasive::unreached(),
        }
    }

    /// Classifies a parsed message, unwrapping a combined-stream envelope to
    /// its nested data object first. `Ok(None)` is an unrecognized message;
    /// `Err` describes a fault in a recognized one.
    pub fn decode_value(value: Json) -> (r: Result<Option<Event>, String>)
        ensures
            (r matches Err(_)) == (spec_decode_value(value) is Fault),
            r matches Err(d) ==> d@ == "forceOrder event without its order object o"@,
            r matches Ok(o) ==> o == spec_class_event(spec_decode_value(value)),
    {
        let combined = match value.get("data") {
            Some(d) => value.get_str("stream").is_some() && d.get_str("e").is_some(),
            None => false,
        };
        if combined {
            match value.take_field("data") {
                Some(data) => Self::decode_data(data),
                None => vstd::pervasive::unreached(),
            }
        } else if value.get_str("e").is_some() {
            Self::decode_data(value)
        } else {
            Ok(None)
        }
    }

    /// Dispatches one event object on its discriminator field `e`. A
    /// liquidation event carries its order object `o`; its absence is the one
    /// fault this dispatch can find.
    pub fn decode_data(value: Json) -> (r: Result<Option<Event>, String>)
        ensures
            (r matches Err(_)) == (spec_classify(value) is Fault),
            r matches Err(d) ==> d@ == "forceOrder event without its order object o"@,
            r matches Ok(o) ==> o == spec_class_event(spec_classify(value)),
    {
        let (has_e, k_kline, k_agg, k_order, k_account, k_force, k_ticker) = match value.get_str(
            "e",
        ) {
            Some(s) => {
                let e = s.as_str();
                (
                    true,
                    str_eq(e, "kline"),
                    str_eq(e, "aggTrade"),
                    str_eq(e, "ORDER_TRADE_UPDATE"),
                    str_eq(e, "ACCOUNT_UPDATE"),
                    str_eq(e, "forceOrder"),
                    str_eq(e, "24hrTicker"),
                )
            },
            None => (false, false, false, false, false, false, false),
        };
        if !has_e {
            Ok(None)
        } else if k_kline {
            Ok(Some(Event::Kline(value)))
        } else if k_agg {
            Ok(Some(Event::AggTrade(value)))
        } else if k_order {
            Ok(Some(Event::OrderTradeUpdate(value)))
        } else if k_account {
            Ok(Some(Event::AccountUpdate(value)))
        } else if k_force {
            match value.take_field("o") {
                Some(order) => Ok(Some(Event::LiquidationEvent(order))),
                None => Err("forceOrder event without its order object o".to_owned()),
            }
        } else if k_ticker {
            Ok(Some(Event::Ticker(value)))
        } else {
            Ok(None)
        }
    }

    /// True exactly for the liquidation variant.
    pub fn is_liquidation_event(&self) -> (r: bool)
        ensures
            r == (*self matches Event::LiquidationEvent(_)),
    {
        match self {
            Event::LiquidationEvent(_) => true,
            _ => false,
        }
    }
}

/// The per-frame receive step: a ping is answered with a pong carrying the
/// identical payload and surfaced as a `Ping` event; a text frame is decoded
/// into exactly one event; every other frame kind is skipped. No frame ever
/// closes the connection.
pub fn handle_frame(frame: Frame) -> (r: FrameStep<Event>)
    ensures
        frame matches Frame::Ping(p) ==> {
            &&& (r.pong matches Some(q) && q@ == p@)
            &&& (r.event matches Some(ev) && ev matches Event::Ping(d) && d@ == p@)
        },
        frame matches Frame::Text(_) ==> r.pong is None,
        frame matches Frame::Text(t) ==> (r.event matches Some(ev) && spec_text_event(t@, ev)),
        !(frame matches Frame::Ping(_)) && !(frame matches Frame::Text(_)) ==> r.pong is None
            && r.event is None,
{
    match frame {
        Frame::Ping(data) => {
            let pong = data.clone();
            proof {
                assert(pong@ =~= data@);
            }
            FrameStep { pong: Some(pong), event: Some(Event::Ping(data)) }
        },
        Frame::Text(t) => FrameStep {
            pong: None,
            event: Some(Event::decode_message(Frame::Text(t))),
        },
        _ => FrameStep { pong: None, event: None },
    }
}

/// Law: a combined-stream envelope decodes to the same classification as the
/// bare inner object decoded directly, whenever the inner object is a plain
/// event object (one that is not itself shaped like an envelope).
pub proof fn lemma_envelope_round_trip(envelope: Json, data: Json)
    requires
        spec_get_str(envelope, "stream"@) is Some,
        spec_get(envelope, "data"@) == Some(data),
        spec_get_str(data, "e"@) is Some,
        !spec_is_envelope(data),
    ensures
        spec_decode_value(envelope) == spec_decode_value(data),
{
    assert(spec_is_envelope(envelope));
    assert(spec_decode_value(envelope) == spec_classify(data));
    assert(spec_decode_value(data) == spec_classify(data));
}

/// The connection URL for one subscription channel.
pub fn stream_url(name: &str) -> (r: String)
    ensures
        r@ == "wss://fstream.binance.com/ws/"@ + name@,
{
    let mut s = "wss://fstream.binance.com/ws/".to_owned();
    s.append(name);
    s
}

/// The connection URL for a combined subscription: the channel names joined
/// with `/` after the single stream path.
pub fn combined_stream_url(streams: &Vec<String>) -> (r: String)
    ensures
        r@ == "wss://fstream.binance.com/stream?streams="@ + spec_join(streams.deep_view(), "/"@),
{
    let mut s = "wss://fstream.binance.com/stream?streams=".to_owned();
    s.append(crate::text::join(streams, "/").as_str());
    s
}

} // verus!
