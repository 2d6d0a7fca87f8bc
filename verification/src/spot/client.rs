//! The spot-market client: the shared signing core bound to the spot API
//! host, the response decoder, form building, and the order enums.

use vstd::prelude::*;
use vstd::string::*;

use crate::common::client::{
    hmac_sha256_hex, spec_opt_form, spec_signed_form, Authentication, ListenKeyResponse,
};
use crate::error::Error;
use crate::futures::client::{decode_response, spec_api_error_result, spec_is_success};
use crate::json::{spec_get_str, spec_json_of, Json};

verus! {

pub const API_ROOT: &'static str = "https://api.binance.com";

/// The spot-market client: the shared signing core bound to the spot host.
#[derive(Clone)]
pub struct Client {
    client: crate::common::client::Client,
}

impl Client {
    /// The credentials this client was built with.
    pub closed spec fn spec_auth(&self) -> Option<Authentication> {
        self.client.spec_auth()
    }

    /// The base URL of the spot API host.
    pub closed spec fn spec_base_url(&self) -> Seq<char> {
        self.client.spec_base_url()
    }

    pub fn new(authentication: Option<Authentication>) -> (r: Self)
        ensures
            r.spec_auth() == authentication,
            r.spec_base_url() == "https://api.binance.com"@,
    {
        Client { client: crate::common::client::Client::new(API_ROOT, authentication) }
    }

    /// Builds the signed form: freshness window and timestamp appended, then
    /// the signature over exactly that string as the trailing field.
    pub fn sign_form(&self, form: Option<&str>, timestamp_ms: u64) -> (r: Result<String, Error>)
        ensures
            self.spec_auth() matches Some(auth) ==> r matches Ok(s) && s@ == spec_signed_form(
                spec_opt_form(form),
                timestamp_ms,
                auth.api_secret@,
            ),
            self.spec_auth() is None ==> (r matches Err(e) && e == Error::MissingCredentials),
    {
        self.client.sign_form(form, timestamp_ms)
    }

    /// Builds the short signed form used to refresh a listen key.
    pub fn listenkey_form(&self, timestamp_ms: u64) -> (r: Result<String, Error>)
        ensures
            self.spec_auth() matches Some(auth) ==> r matches Ok(s) && {
                let payload = "timestamp="@ + crate::text::spec_u64_dec(timestamp_ms as nat);
                s@ == payload + "&signature="@ + hmac_sha256_hex(auth.api_secret@, payload)
            },
            self.spec_auth() is None ==> (r matches Err(e) && e == Error::MissingCredentials),
    {
        self.client.listenkey_form(timestamp_ms)
    }

    /// The request headers for this client's credentials.
    pub fn headers(&self) -> (r: Vec<(String, String)>)
        ensures
            self.spec_auth() matches Some(auth) ==> {
                &&& r@.len() == 2
                &&& r@[0].0@ == "X-MBX-APIKEY"@
                &&& r@[0].1@ == auth.api_key@
                &&& r@[1].0@ == "Content-Type"@
                &&& r@[1].1@ == "application/x-www-form-urlencoded"@
            },
            self.spec_auth() is None ==> {
                &&& r@.len() == 1
                &&& r@[0].0@ == "Content-Type"@
                &&& r@[0].1@ == "application/x-www-form-urlencoded"@
            },
    {
        self.client.headers()
    }

    /// A full URL on the spot host, with an optional query string.
    pub fn url2(&self, endpoint: &str, query_string: Option<&str>) -> (r: String)
        ensures
            r@ == self.spec_base_url() + endpoint@ + match query_string {
                Some(q) => "?"@ + q@,
                None => Seq::<char>::empty(),
            },
    {
        self.client.url2(endpoint, query_string)
    }

    /// Maps an HTTP status and body to the parsed JSON tree or a classified
    /// error, exactly as the shared decoder does.
    pub fn decode_response(&self, status: u16, body: &str) -> (r: Result<Json, Error>)
        ensures
            spec_is_success(status) ==> match spec_json_of(body@) {
                Some(j) => r == Ok::<Json, Error>(j),
                None => (r matches Err(Error::Decode { error: _, text }) && text@ == body@),
            },
            !spec_is_success(status) ==> (r matches Err(Error::ApiError(api))
                && spec_api_error_result(api, status, body@)),
    {
        decode_response(status, body)
    }

    /// Decodes a listen-key response body.
    pub fn decode_listenkey(&self, body: &str) -> (r: Result<ListenKeyResponse, Error>)
        ensures
            match spec_json_of(body@) {
                Some(j) => match spec_get_str(j, "listenKey"@) {
                    Some(s) => r matches Ok(resp) && resp.listen_key@ == s,
                    None => (r matches Err(e) && e is Serde),
                },
                None => (r matches Err(e) && e is Serde),
            },
    {
        crate::common::client::decode_listen_key(body)
    }
}

/// The form a list of key/value pairs denotes: `k=v` fields joined by `&`,
/// with the values taken verbatim.
pub open spec fn spec_form(vals: Seq<(Seq<char>, Seq<char>)>) -> Seq<char>
    decreases vals.len(),
{
    if vals.len() == 0 {
        Seq::empty()
    } else if vals.len() == 1 {
        vals[0].0 + "="@ + vals[0].1
    } else {
        vals[0].0 + "="@ + vals[0].1 + "&"@ + spec_form(vals.drop_first())
    }
}

proof fn lemma_form_push(vals: Seq<(Seq<char>, Seq<char>)>, x: (Seq<char>, Seq<char>))
    ensures
        vals.len() == 0 ==> spec_form(vals.push(x)) =~= x.0 + "="@ + x.1,
        vals.len() > 0 ==> spec_form(vals.push(x)) =~= spec_form(vals) + "&"@ + x.0 + "="@ + x.1,
    decreases vals.len(),
{
    if vals.len() == 0 {
        assert(vals.push(x)[0] == x);
    } else {
        assert(vals.push(x).drop_first() =~= vals.drop_first().push(x));
        lemma_form_push(vals.drop_first(), x);
    }
}

/// Builds a plain (unescaped) form body from key/value pairs.
pub fn build_form(vals: &Vec<(&str, &str)>) -> (r: String)
    ensures
        r@ == spec_form(vals@.map_values(|p: (&str, &str)| (p.0@, p.1@))),
{
    let ghost pairs = vals@.map_values(|p: (&str, &str)| (p.0@, p.1@));
    let mut buf = String::new();
    let n = vals.len();
    proof {
        assert(pairs.take(0) =~= Seq::<(Seq<char>, Seq<char>)>::empty());
    }
    for i in 0..n
        invariant
            n == vals.len(),
            pairs.len() == n,
            pairs == vals@.map_values(|p: (&str, &str)| (p.0@, p.1@)),
            forall|k: int| 0 <= k < n ==> #[trigger] pairs[k] == (vals@[k].0@, vals@[k].1@),
            buf@ == spec_form(pairs.take(i as int)),
        decreases n - i,
    {
        if i > 0 {
            buf.append("&");
        }
        buf.append(vals[i].0);
        buf.append("=");
        buf.append(vals[i].1);
        proof {
            let prefix = pairs.take(i as int);
            assert(pairs.take(i + 1) =~= prefix.push(pairs[i as int]));
            lemma_form_push(prefix, pairs[i as int]);
            assert(buf@ =~= spec_form(pairs.take(i + 1)));
        }
    }
    proof {
        assert(pairs.take(n as int) =~= pairs);
    }
    buf
}

/// The side of an order.
#[derive(Debug, Clone, PartialEq, Eq, Structural)]
pub enum OrderSide {
    Buy,
    Sell,
}

impl OrderSide {
    /// The wire name of the side.
    pub fn as_str(&self) -> (r: &'static str)
        ensures
            *self is Buy ==> r@ == "BUY"@,
            *self is Sell ==> r@ == "SELL"@,
    {
        match self {
            OrderSide::Buy => "BUY",
            OrderSide::Sell => "SELL",
        }
    }
}

/// The type of an order; the trailing kinds are used by the derivatives
/// market only.
#[derive(Debug, Clone, PartialEq, Eq, Structural)]
pub enum OrderType {
    Market,
    Limit,
    Stop,
    StopMarket,
    TakeProfit,
    TakeProfitMarket,
    TrailingStopMarket,
}

impl OrderType {
    /// The wire name of the order type.
    pub fn as_str(&self) -> (r: &'static str)
        ensures
            *self is Market ==> r@ == "MARKET"@,
            *self is Limit ==> r@ == "LIMIT"@,
            *self is Stop ==> r@ == "STOP"@,
            *self is StopMarket ==> r@ == "STOP_MARKET"@,
            *self is TakeProfit ==> r@ == "TAKE_PROFIT"@,
            *self is TakeProfitMarket ==> r@ == "TAKE_PROFIT_MARKET"@,
            *self is TrailingStopMarket ==> r@ == "TRAILING_STOP_MARKET"@,
    {
        match self {
            OrderType::Market => "MARKET",
            OrderType::Limit => "LIMIT",
            OrderType::Stop => "STOP",
            OrderType::StopMarket => "STOP_MARKET",
            OrderType::TakeProfit => "TAKE_PROFIT",
            OrderType::TakeProfitMarket => "TAKE_PROFIT_MARKET",
            OrderType::TrailingStopMarket => "TRAILING_STOP_MARKET",
        }
    }
}

} // verus!
