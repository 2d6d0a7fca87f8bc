//! Tests for the streaming event decoders of both markets.

use binance_client::frame::Frame;
use binance_client::futures::websocket as fws;
use binance_client::spot::websocket as sws;
use binance_client::Json;

fn text_frame(s: &str) -> Frame {
    Frame::Text(s.to_string())
}

#[test]
fn test_deserialize_liquidation_event() {
    let text = "\
        {\"stream\":\"dogebusd@forceOrder\",\
         \"data\":\
            {\"e\":\"forceOrder\",\
             \"E\":1643948075159,\
             \"o\":{\
                \"s\":\"DOGEBUSD\",\
                \"S\":\"BUY\",\
                \"o\":\"LIMIT\",\
                \"f\":\"IOC\",\
                \"q\":\"568\",\
                \"p\":\"0.142229\",\
                \"ap\":\"0.138770\",\
                \"X\":\"FILLED\",\
                \"l\":\"568\",\
                \"z\":\"568\",\
                \"T\":1643948075152}}}";

    let event = fws::Event::decode_message(text_frame(text));
    assert!(event.is_liquidation_event());
    if let fws::Event::LiquidationEvent(order) = event {
        assert_eq!(order.get_str("s").unwrap(), "DOGEBUSD");
        assert_eq!(order.get_str("S").unwrap(), "BUY");
        assert_eq!(order.get_str("q").unwrap(), "568");
    } else {
        unreachable!();
    }
}

#[test]
fn test_deserialize_ticker() {
    let text = "{\
        \"stream\":\"btcusdt@ticker\",\
        \"data\":{\
            \"e\":\"24hrTicker\",\
            \"E\":1643956077872,\
            \"s\":\"BTCUSDT\",\
            \"p\":\"1070.58\",\
            \"P\":\"2.905\",\
            \"w\":\"36828.93\",\
            \"c\":\"37920.00\",\
            \"Q\":\"0.095\",\
            \"o\":\"36849.42\",\
            \"h\":\"38000.00\",\
            \"l\":\"36204.30\",\
            \"v\":\"338765.425\",\
            \"q\":\"12476366874.26\",\
            \"O\":1643869620000,\
            \"C\":1643956077866,\
            \"F\":1888682750,\
            \"L\":1891841228,\
            \"n\":3158308}}";

    let event = fws::Event::decode_message(text_frame(text));
    if let fws::Event::Ticker(payload) = event {
        assert_eq!(payload.get_str("s").unwrap(), "BTCUSDT");
        assert_eq!(payload.get_str("p").unwrap(), "1070.58");
    } else {
        panic!("expected a ticker event");
    }
}

#[test]
fn test_decode_order_trade_update() {
    let text = r#"{
        "e":"ORDER_TRADE_UPDATE",
        "T":1612418801174,
        "E":1612418801179,
        "o":{
            "s":"BTCUSDT",
            "c":"electron_Zh7oBoYbpj7MiQLtom2u",
            "S":"SELL",
            "o":"LIMIT",
            "f":"GTC",
            "q":"0.100",
            "p":"40000","ap":"0","sp":"0","x":"NEW","X":"NEW","i":13584185467,"l":"0","z":"0","L":"0","T":1612418801174,"t":0,"b":"0","a":"4000","m":false,"R":false,"wt":"CONTRACT_PRICE","ot":"LIMIT","ps":"SHORT","cp":false,"rp":"0","pP":false,"si":0,"ss":0}}"#;

    let event = fws::Event::decode_message(text_frame(text));
    if let fws::Event::OrderTradeUpdate(payload) = event {
        let order = payload.get("o").unwrap();
        assert_eq!(order.get_str("s").unwrap(), "BTCUSDT");
        assert_eq!(order.get_str("S").unwrap(), "SELL");
    } else {
        panic!("expected an order trade update event");
    }
}

#[test]
fn decode_bare_agg_trade() {
    let text = r#"{"e":"aggTrade","E":1623823500,"s":"BTCUSDT","a":1,"p":"39000.5","q":"2","f":1,"l":2,"T":1623823499,"m":true}"#;
    let event = fws::Event::decode_message(text_frame(text));
    if let fws::Event::AggTrade(payload) = event {
        assert_eq!(payload.get_str("s").unwrap(), "BTCUSDT");
        assert_eq!(payload.get_str("p").unwrap(), "39000.5");
    } else {
        panic!("expected an aggregate trade event");
    }
}

#[test]
fn combined_envelope_decodes_like_bare_object() {
    let inner = r#"{"e":"aggTrade","E":1623823500,"s":"BTCUSDT","a":1,"p":"39000.5","q":"2","f":1,"l":2,"T":1623823499,"m":true}"#;
    let enveloped = format!(r#"{{"stream":"btcusdt@aggTrade","data":{}}}"#, inner);

    let bare = fws::Event::decode_message(text_frame(inner));
    let combined = fws::Event::decode_message(text_frame(&enveloped));
    match (bare, combined) {
        (fws::Event::AggTrade(a), fws::Event::AggTrade(b)) => assert_eq!(a, b),
        _ => panic!("both decodes must yield the same aggregate trade event"),
    }
}

#[test]
fn unknown_discriminator_is_kept_not_dropped() {
    let text = r#"{"e":"somethingNew","x":1}"#;
    let event = fws::Event::decode_message(text_frame(text));
    if let fws::Event::Unknown(kept) = event {
        assert_eq!(kept, text);
    } else {
        panic!("an unrecognized discriminator must yield an Unknown event");
    }
}

#[test]
fn invalid_json_yields_parse_error_and_loop_continues() {
    let bad = "this is not json";
    let step = fws::handle_frame(text_frame(bad));
    assert!(step.pong.is_none());
    match step.event {
        Some(fws::Event::ParseError(description, kept)) => {
            assert_eq!(kept, bad);
            assert!(!description.is_empty());
        },
        _ => panic!("invalid JSON must yield a parse-error event"),
    }

    // The next frame is still decoded normally.
    let next = fws::handle_frame(text_frame(r#"{"e":"somethingNew"}"#));
    assert!(matches!(next.event, Some(fws::Event::Unknown(_))));
}

#[test]
fn decoding_the_same_bad_text_twice_gives_identical_events() {
    let bad = "{not json";
    let first = fws::Event::decode_message(text_frame(bad));
    let second = fws::Event::decode_message(text_frame(bad));
    match (first, second) {
        (fws::Event::ParseError(d1, t1), fws::Event::ParseError(d2, t2)) => {
            assert_eq!(d1, d2);
            assert_eq!(t1, t2);
        },
        _ => panic!("both decodes must yield the same parse-error event"),
    }
}

#[test]
fn ping_is_answered_with_identical_payload() {
    let payload = vec![1u8, 2, 3, 4];
    let step = fws::handle_frame(Frame::Ping(payload.clone()));
    assert_eq!(step.pong, Some(payload.clone()));
    match step.event {
        Some(fws::Event::Ping(data)) => assert_eq!(data, payload),
        _ => panic!("a ping must surface as a ping event"),
    }
}

#[test]
fn non_text_non_ping_frames_are_skipped() {
    let step = fws::handle_frame(Frame::Binary(vec![0u8, 1]));
    assert!(step.pong.is_none());
    assert!(step.event.is_none());
    let step = fws::handle_frame(Frame::Pong(vec![]));
    assert!(step.pong.is_none());
    assert!(step.event.is_none());
    let step = fws::handle_frame(Frame::Close);
    assert!(step.pong.is_none());
    assert!(step.event.is_none());
}

#[test]
fn liquidation_without_order_object_is_a_parse_error() {
    let text = r#"{"e":"forceOrder","E":1}"#;
    let event = fws::Event::decode_message(text_frame(text));
    match event {
        fws::Event::ParseError(_, kept) => assert_eq!(kept, text),
        _ => panic!("a liquidation event without its order object is a fault"),
    }
}

#[test]
fn test_decode_execution_report() {
    let text = "{\
        \"e\":\"executionReport\",\
        \"E\":1617686659383,\
        \"s\":\"TFUELUSDT\",\
        \"c\":\"iWoC4jk0fET4rFkrvFFY1y\",\
        \"S\":\"BUY\",\
        \"o\":\"MARKET\",\
        \"f\":\"GTC\",\
        \"q\":\"30.00000000\",\
        \"p\":\"0.00000000\",\
        \"P\":\"0.00000000\",\
        \"F\":\"0.00000000\",\
        \"g\":-1,\
        \"C\":\"\",\
        \"x\":\"TRADE\",\
        \"X\":\"FILLED\",\
        \"r\":\"NONE\",\
        \"i\":197554424,\
        \"l\":\"30.00000000\",\
        \"z\":\"30.00000000\",\
        \"L\":\"0.36653900\",\
        \"n\":\"0.00002190\",\
        \"N\":\"BNB\",\
        \"T\":1617686659382,\
        \"t\":13155802,\
        \"I\":408139578,\
        \"w\":false,\
        \"m\":false,\
        \"M\":true,\
        \"O\":1617686659382,\
        \"Z\":\"10.99617000\",\
        \"Y\":\"10.99617000\",\
        \"Q\":\"0.00000000\"}";

    let decoder = sws::Decoder {};
    let event = decoder.decode_event(text_frame(text));
    if let sws::Event::ExecutionReport(report) = event {
        assert_eq!(report.get_str("s").unwrap(), "TFUELUSDT");
        assert_eq!(report.get_str("X").unwrap(), "FILLED");
    } else {
        panic!("expected an execution report event");
    }
}

#[test]
fn test_decode_outbound_account_position() {
    let text = "{\
        \"e\":\"outboundAccountPosition\",\
        \"E\":1617686659383,\
        \"u\":1617686659382,\
        \"B\":[\
            {\
                \"a\":\"BNB\",\
                \"f\":\"0.49669914\",\
                \"l\":\"0.00000000\"\
            },\
            {\
                \"a\":\"USDT\",\
                \"f\":\"124.93107143\",\
                \"l\":\"1343.75000000\"\
            },\
            {\
                \"a\":\"TFUEL\",\
                \"f\":\"1530.00000000\",\
                \"l\":\"0.00000000\"\
            }\
        ]\
    }";

    let decoder = sws::Decoder {};
    let event = decoder.decode_event(text_frame(text));
    if let sws::Event::AccountUpdate(update) = event {
        match update.get("B").unwrap() {
            Json::Array(balances) => assert_eq!(balances.len(), 3),
            _ => panic!("B must be an array"),
        }
    } else {
        panic!("expected an account update event");
    }
}

#[test]
fn spot_unrecognized_text_comes_back_as_message() {
    let text = r#"{"e":"somethingNew"}"#;
    let decoder = sws::Decoder {};
    let event = decoder.decode_event(text_frame(text));
    match event {
        sws::Event::Message(Frame::Text(kept)) => assert_eq!(kept, text),
        _ => panic!("an unrecognized spot message is handed through undecoded"),
    }
}

#[test]
fn spot_ping_is_answered_with_identical_payload() {
    let payload = vec![9u8, 8, 7];
    let decoder = sws::Decoder {};
    let step = decoder.handle_frame(Frame::Ping(payload.clone()));
    assert_eq!(step.pong, Some(payload.clone()));
    match step.event {
        Some(sws::Event::Message(Frame::Ping(data))) => assert_eq!(data, payload),
        _ => panic!("a spot ping comes back as an undecoded message"),
    }
}
