//! Tests for the signer, the signed-form builder, and form encoding.

use binance_client::common::client::{Authentication, Client};
use binance_client::futures::client::Client as FuturesClient;
use binance_client::spot::client::build_form;
use binance_client::types::CancelOrder;
use binance_client::Error;

fn auth(secret: &str, key: &str) -> Option<Authentication> {
    Some(Authentication { api_secret: secret.to_string(), api_key: key.to_string() })
}

#[test]
fn signature_matches_known_hmac_sha256_vector() {
    // A widely published HMAC-SHA256 test vector.
    let client = Client::new("https://example.invalid", auth("key", "k"));
    let signature =
        client.compute_signature("The quick brown fox jumps over the lazy dog").unwrap();
    assert_eq!(signature, "f7bc83f430538424b13298e6aa6fb143ef4d59a14946175997479dbc2d1a3cd8");
}

#[test]
fn signing_twice_with_same_inputs_is_identical() {
    let client = Client::new("https://example.invalid", auth("secret", "k"));
    let first = client.sign_form(Some("symbol=BTCUSDT"), 1699999999999).unwrap();
    let second = client.sign_form(Some("symbol=BTCUSDT"), 1699999999999).unwrap();
    assert_eq!(first, second);
}

#[test]
fn changing_one_byte_changes_the_signature() {
    let client = Client::new("https://example.invalid", auth("secret", "k"));
    let a = client.compute_signature("symbol=BTCUSDT").unwrap();
    let b = client.compute_signature("symbol=BTCUSDU").unwrap();
    assert_ne!(a, b);
}

#[test]
fn signed_form_has_fixed_field_order_and_covers_exact_bytes() {
    let client = Client::new("https://example.invalid", auth("secret", "k"));
    let timestamp: u64 = 1699999999999;
    let form = client.sign_form(Some("symbol=BTCUSDT"), timestamp).unwrap();

    let payload = "symbol=BTCUSDT&recvWindow=1000&timestamp=1699999999999";
    let expected_signature = client.compute_signature(payload).unwrap();
    assert_eq!(form, format!("{}&signature={}", payload, expected_signature));
}

#[test]
fn empty_form_still_gets_window_timestamp_and_signature() {
    let client = Client::new("https://example.invalid", auth("secret", "k"));
    let form = client.sign_form(None, 5).unwrap();
    let payload = "&recvWindow=1000&timestamp=5";
    let expected_signature = client.compute_signature(payload).unwrap();
    assert_eq!(form, format!("{}&signature={}", payload, expected_signature));
}

#[test]
fn signing_without_credentials_is_a_distinguishable_error() {
    let client = Client::new("https://example.invalid", None);
    assert!(matches!(client.compute_signature("x"), Err(Error::MissingCredentials)));
    assert!(matches!(client.sign_form(Some("x"), 1), Err(Error::MissingCredentials)));
    assert!(matches!(client.listenkey_form(1), Err(Error::MissingCredentials)));
}

#[test]
fn headers_carry_key_and_content_type() {
    let client = Client::new("https://example.invalid", auth("secret", "THEKEY"));
    let headers = client.headers();
    assert_eq!(headers.len(), 2);
    assert_eq!(headers[0], ("X-MBX-APIKEY".to_string(), "THEKEY".to_string()));
    assert_eq!(
        headers[1],
        ("Content-Type".to_string(), "application/x-www-form-urlencoded".to_string())
    );

    let public_client = Client::new("https://example.invalid", None);
    assert_eq!(public_client.headers().len(), 1);
}

#[test]
fn url_building_appends_endpoint_and_query() {
    let client = Client::new("https://api.example.invalid", None);
    assert_eq!(client.url("/api/v3/time"), "https://api.example.invalid/api/v3/time");
    assert_eq!(
        client.url2("/api/v3/depth", Some("symbol=BTCUSDT")),
        "https://api.example.invalid/api/v3/depth?symbol=BTCUSDT"
    );
    assert_eq!(client.url2("/api/v3/time", None), "https://api.example.invalid/api/v3/time");
}

#[test]
fn build_form_joins_pairs() {
    let vals: Vec<(&str, &str)> = vec![("symbol", "BTCUSDT"), ("limit", "10")];
    assert_eq!(build_form(&vals), "symbol=BTCUSDT&limit=10");
    let empty: Vec<(&str, &str)> = vec![];
    assert_eq!(build_form(&empty), "");
    let one: Vec<(&str, &str)> = vec![("a", "1")];
    assert_eq!(build_form(&one), "a=1");
}

#[test]
fn cancel_order_form_encodes_fields_then_signs() {
    let client = FuturesClient::new(auth("secret", "k"));
    let request = CancelOrder::by_order_id("TOMOUSDT", 1544589222);
    let form = client.cancel_order_form(&request, 77).unwrap();
    assert!(form.starts_with("symbol=TOMOUSDT&orderId=1544589222&recvWindow=1000&timestamp=77&signature="));

    let by_client_id = CancelOrder::by_client_order_id("TOMOUSDT", "electron_vIOn6GOGIi2nNsIkngt3");
    let form = client.cancel_order_form(&by_client_id, 77).unwrap();
    assert!(form.starts_with(
        "symbol=TOMOUSDT&origClientOrderId=electron_vIOn6GOGIi2nNsIkngt3&recvWindow=1000&timestamp=77&signature="
    ));
}

#[test]
fn cancel_order_form_percent_encodes_values() {
    let client = FuturesClient::new(auth("secret", "k"));
    let request = CancelOrder::by_client_order_id("TOMOUSDT", "a b&c");
    let form = client.cancel_order_form(&request, 1).unwrap();
    assert!(form.starts_with("symbol=TOMOUSDT&origClientOrderId=a+b%26c&recvWindow=1000&timestamp=1&signature="));
}

#[test]
fn cancel_all_form_holds_the_symbol() {
    let client = FuturesClient::new(auth("secret", "k"));
    let form = client.cancel_all_form("BTCUSDT", 9).unwrap();
    let payload = "symbol=BTCUSDT&recvWindow=1000&timestamp=9";
    let signature = client.compute_signature(payload).unwrap();
    assert_eq!(form, format!("{}&signature={}", payload, signature));
}

#[test]
fn listenkey_form_signs_timestamp_only() {
    let client = Client::new("https://example.invalid", auth("secret", "k"));
    let form = client.listenkey_form(42).unwrap();
    let signature = client.compute_signature("timestamp=42").unwrap();
    assert_eq!(form, format!("timestamp=42&signature={}", signature));
}
