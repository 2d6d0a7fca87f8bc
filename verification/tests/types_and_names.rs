//! Tests for the interval type, channel names, URLs and numeric text.

use binance_client::common::websocket::{
    stream_name_aggtrade, stream_name_kline, stream_name_liquidation, stream_name_ticker,
    stream_name_trade,
};
use binance_client::futures::client::{PositionSide, ReduceOnly};
use binance_client::futures::websocket as fws;
use binance_client::spot::client::{OrderSide, OrderType};
use binance_client::spot::websocket as sws;
use binance_client::text::{i64_to_dec, parse_dec_i64, u64_to_dec};
use binance_client::types::interval::Interval;
use binance_client::types::TimeInForce;

#[test]
pub fn test_interval() {
    assert_eq!(Interval::from_str_non_strict("1m"), Interval::OneMinute);
    assert_eq!(Interval::OneMinute.to_str(), "1m");

    assert_eq!(Interval::Other("1.5m".to_string()).to_str(), "1.5m");
}

#[test]
fn interval_lengths() {
    assert_eq!(Interval::OneMinute.to_seconds(), 60);
    assert_eq!(Interval::ThreeMinute.to_seconds(), 180);
    assert_eq!(Interval::FiveMinute.to_seconds(), 300);
    assert_eq!(Interval::FifteenMinute.to_seconds(), 900);
    assert_eq!(Interval::OneHour.to_seconds(), 3600);
    assert_eq!(Interval::FourHour.to_seconds(), 14400);
    assert_eq!(Interval::Other("8h".to_string()).to_seconds(), 0);
    assert_eq!(Interval::FourHour.to_millis(), 14_400_000);
}

#[test]
fn interval_round_trips_named_spellings() {
    for name in ["1m", "3m", "5m", "15m", "1h", "4h"] {
        assert_eq!(Interval::from_str_non_strict(name).to_str(), name);
    }
    assert_eq!(Interval::from_str_non_strict("2w"), Interval::Other("2w".to_string()));
}

#[test]
fn stream_names_lowercase_the_symbol() {
    assert_eq!(stream_name_trade("BTCUSDT"), "btcusdt@trade");
    assert_eq!(stream_name_aggtrade("BTCUSDT"), "btcusdt@aggTrade");
    assert_eq!(stream_name_kline("BtcUsdt", "4h"), "btcusdt@kline_4h");
    assert_eq!(stream_name_liquidation("DOGEBUSD"), "dogebusd@forceOrder");
    assert_eq!(stream_name_ticker("ethusdt"), "ethusdt@ticker");
}

#[test]
fn stream_urls_have_the_documented_shape() {
    assert_eq!(
        fws::stream_url("btcusdt@aggTrade"),
        "wss://fstream.binance.com/ws/btcusdt@aggTrade"
    );
    let streams = vec![
        "btcusdt@aggTrade".to_string(),
        "ethusdt@ticker".to_string(),
        "dogebusd@forceOrder".to_string(),
    ];
    assert_eq!(
        fws::combined_stream_url(&streams),
        "wss://fstream.binance.com/stream?streams=btcusdt@aggTrade/ethusdt@ticker/dogebusd@forceOrder"
    );
    assert_eq!(
        sws::stream_url("btcusdt@trade"),
        "wss://stream.binance.com:9443/ws/btcusdt@trade"
    );
    let one = vec!["btcusdt@trade".to_string()];
    assert_eq!(
        sws::combined_stream_url(&one),
        "wss://stream.binance.com:9443/stream?streams=btcusdt@trade"
    );
}

#[test]
fn decimal_rendering_is_exact() {
    assert_eq!(u64_to_dec(0), "0");
    assert_eq!(u64_to_dec(7), "7");
    assert_eq!(u64_to_dec(1699999999999), "1699999999999");
    assert_eq!(u64_to_dec(u64::MAX), "18446744073709551615");
    assert_eq!(i64_to_dec(-2011), "-2011");
    assert_eq!(i64_to_dec(0), "0");
    assert_eq!(i64_to_dec(i64::MIN), "-9223372036854775808");
}

#[test]
fn decimal_parsing_accepts_exactly_the_in_range_values() {
    assert_eq!(parse_dec_i64("-2011"), Some(-2011));
    assert_eq!(parse_dec_i64("0"), Some(0));
    assert_eq!(parse_dec_i64("9223372036854775807"), Some(i64::MAX));
    assert_eq!(parse_dec_i64("-9223372036854775808"), Some(i64::MIN));
    assert_eq!(parse_dec_i64("9223372036854775808"), None);
    assert_eq!(parse_dec_i64("-9223372036854775809"), None);
    assert_eq!(parse_dec_i64("20.5"), None);
    assert_eq!(parse_dec_i64("1e3"), None);
    assert_eq!(parse_dec_i64(""), None);
    assert_eq!(parse_dec_i64("-"), None);
    assert_eq!(parse_dec_i64("12a"), None);
}

#[test]
fn wire_names_of_order_enums() {
    assert_eq!(OrderSide::Buy.as_str(), "BUY");
    assert_eq!(OrderSide::Sell.as_str(), "SELL");
    assert_eq!(OrderType::Market.as_str(), "MARKET");
    assert_eq!(OrderType::TrailingStopMarket.as_str(), "TRAILING_STOP_MARKET");
    assert_eq!(TimeInForce::GTC.as_str(), "GTC");
    assert_eq!(TimeInForce::GTX.as_str(), "GTX");
    assert_eq!(PositionSide::Both.as_str(), "BOTH");
    assert_eq!(ReduceOnly::Yes.as_str(), "YES");
}
