//! Response decoding for the derivatives market: the two-tier mapping from an
//! HTTP status and body to either the parsed JSON tree or a classified API
//! error, and the authenticated request builder around the shared signing
//! core.

use vstd::prelude::*;
use vstd::string::*;

use crate::common::client::{
    hmac_sha256_hex, spec_opt_form, spec_signed_form, Authentication, ListenKeyResponse,
};
use crate::error::Error;
use crate::json::{parse_json, spec_get, spec_get_str, spec_json_of, Json};
use crate::text::{i64_to_dec, parse_dec_i64, spec_i64_dec, spec_parse_i64, str_eq, urlencode_pairs, urlencoded_of};
use crate::types::{spec_cancel_pairs, CancelOrder};

verus! {

pub const API_ROOT: &'static str = "https://fapi.binance.com";

/// An error sent by the remote API: a numeric code, a human message, and the
/// remaining fields of the error object, kept rather than dropped.
#[derive(Debug)]
pub struct ApiError {
    pub code: i64,
    pub msg: String,
    pub other: Vec<(String, Json)>,
}

impl ApiError {
    /// Renders the error as `code: <code>, msg: <msg>`.
    pub fn message(&self) -> (r: String)
        ensures
            r@ == "code: "@ + spec_i64_dec(self.code as int) + ", msg: "@ + self.msg@,
    {
        let mut s = "code: ".to_owned();
        s.append(i64_to_dec(self.code).as_str());
        s.append(", msg: ");
        s.append(self.msg.as_str());
        proof {
            assert(s@ =~= "code: "@ + spec_i64_dec(self.code as int) + ", msg: "@ + self.msg@);
        }
        s
    }
}

/// The numeric code of an API error body: field `code` as an integer in
/// `i64` range.
pub open spec fn spec_api_code(j: Json) -> Option<int> {
    match spec_get(j, "code"@) {
        Some(Json::Number(s)) => spec_parse_i64(s@),
        _ => None,
    }
}

/// The message of an API error body: field `msg` as a string.
pub open spec fn spec_api_msg(j: Json) -> Option<Seq<char>> {
    spec_get_str(j, "msg"@)
}

/// True when `j` has the API error shape: an object with an integer `code`
/// and a string `msg`.
pub open spec fn spec_is_api_error(j: Json) -> bool {
    spec_api_code(j) is Some && spec_api_msg(j) is Some
}

/// The fields of an API error object other than `code` and `msg`, in order.
pub open spec fn spec_other_entries(entries: Seq<(String, Json)>) -> Seq<(String, Json)>
    decreases entries.len(),
{
    if entries.len() == 0 {
        Seq::empty()
    } else {
        let rest = spec_other_entries(entries.drop_first());
        if entries[0].0@ == "code"@ || entries[0].0@ == "msg"@ {
            rest
        } else {
            seq![entries[0]] + rest
        }
    }
}

/// The open bag of extra fields of an API error body.
pub open spec fn spec_api_other(j: Json) -> Seq<(String, Json)> {
    match j {
        Json::Object(entries) => spec_other_entries(entries@),
        _ => Seq::empty(),
    }
}

/// Reads an API error out of a parsed body: `Some` exactly when the body has
/// an integer `code` and a string `msg`, with every other field kept.
pub fn decode_api_error(j: Json) -> (r: Option<ApiError>)
    ensures
        match r {
            Some(e) => {
                &&& spec_api_code(j) == Some(e.code as int)
                &&& spec_api_msg(j) == Some(e.msg@)
                &&& e.other@ == spec_api_other(j)
            },
            None => !spec_is_api_error(j),
        },
{
    let code: i64 = match j.get("code") {
        Some(Json::Number(s)) => match parse_dec_i64(s.as_str()) {
            Some(v) => v,
            None => {
                return None;
            },
        },
        _ => {
            return None;
        },
    };
    let msg: String = match j.get_str("msg") {
        Some(s) => s.clone(),
        None => {
            return None;
        },
    };
    let mut other: Vec<(String, Json)> = Vec::new();
    match j {
        Json::Object(mut entries) => {
            let ghost all = entries@;
            while entries.len() > 0
                invariant
                    spec_other_entries(all) =~= other@ + spec_other_entries(entries@),
                decreases entries@.len(),
            {
                let ghost before = entries@;
                let pair = entries.remove(0);
                proof {
                    assert(entries@ =~= before.drop_first());
                }
                if !str_eq(pair.0.as_str(), "code") && !str_eq(pair.0.as_str(), "msg") {
                    other.push(pair);
                    proof {
                        assert(spec_other_entries(before) =~= seq![pair] + spec_other_entries(
                            before.drop_first(),
                        ));
                    }
                }
            }
            proof {
                assert(spec_other_entries(entries@) =~= Seq::<(String, Json)>::empty());
                assert(other@ =~= spec_other_entries(all));
            }
            Some(ApiError { code, msg, other })
        },
        _ => Some(ApiError { code, msg, other }),
    }
}

/// True for the HTTP statuses that indicate success.
pub open spec fn spec_is_success(status: u16) -> bool {
    200 <= status < 300
}

/// What a classified error of a non-success response must hold: the body's
/// own code, message and extra fields when the body has the API error shape,
/// else the HTTP status as the code and the raw body as the message.
pub open spec fn spec_api_error_result(api: ApiError, status: u16, body: Seq<char>) -> bool {
    match spec_json_of(body) {
        Some(j) => {
            if spec_is_api_error(j) {
                &&& spec_api_code(j) == Some(api.code as int)
                &&& spec_api_msg(j) == Some(api.msg@)
                &&& api.other@ == spec_api_other(j)
            } else {
                &&& api.code == status as int
                &&& api.msg@ == body
                &&& api.other@.len() == 0
            }
        },
        None => {
            &&& api.code == status as int
            &&& api.msg@ == body
            &&& api.other@.len() == 0
        },
    }
}

/// Maps an HTTP status and body to the parsed JSON tree on success, or to a
/// classified error.
///
/// On any success status (the whole 2xx class) the body is parsed, and a
/// parse failure keeps the original text. On any other status the caller
/// always receives a classified API error: the body's own if it has the
/// error shape, else one synthesized from the status and the raw body.
pub fn decode_response(status: u16, body: &str) -> (r: Result<Json, Error>)
    ensures
        spec_is_success(status) ==> match spec_json_of(body@) {
            Some(j) => r == Ok::<Json, Error>(j),
            None => (r matches Err(Error::Decode { error: _, text }) && text@ == body@),
        },
        !spec_is_success(status) ==> (r matches Err(Error::ApiError(api))
            && spec_api_error_result(api, status, body@)),
{
    if 200 <= status && status < 300 {
        match parse_json(body) {
            Ok(j) => Ok(j),
            Err(e) => Err(Error::Decode { error: e, text: body.to_owned() }),
        }
    } else {
        match parse_json(body) {
            Ok(j) => match decode_api_error(j) {
                Some(api) => Err(Error::ApiError(api)),
                None => Err(
                    Error::ApiError(
                        ApiError { code: status as i64, msg: body.to_owned(), other: Vec::new() },
                    ),
                ),
            },
            Err(_) => Err(
                Error::ApiError(
                    ApiError { code: status as i64, msg: body.to_owned(), other: Vec::new() },
                ),
            ),
        }
    }
}

/// The response to the position-mode query.
#[derive(Debug, Clone)]
pub struct PositionModeResponse {
    pub dual_side_position: bool,
}

/// Decodes a position-mode response: on a success status (2xx) the body must
/// be JSON with a boolean `dualSidePosition` field, else the parse failure
/// keeps the original text; any other status yields the classified error.
pub fn decode_position_mode(status: u16, body: &str) -> (r: Result<PositionModeResponse, Error>)
    ensures
        spec_is_success(status) ==> match spec_json_of(body@) {
            Some(j) => match spec_get(j, "dualSidePosition"@) {
                Some(Json::Bool(b)) => r matches Ok(resp) && resp.dual_side_position == b,
                _ => (r matches Err(Error::Decode { error: _, text }) && text@ == body@),
            },
            None => (r matches Err(Error::Decode { error: _, text }) && text@ == body@),
        },
        !spec_is_success(status) ==> (r matches Err(Error::ApiError(api))
            && spec_api_error_result(api, status, body@)),
{
    match decode_response(status, body) {
        Ok(j) => match j.get_bool("dualSidePosition") {
            Some(b) => Ok(PositionModeResponse { dual_side_position: b }),
            None => Err(
                Error::Decode {
                    error: "missing boolean field dualSidePosition".to_owned(),
                    text: body.to_owned(),
                },
            ),
        },
        Err(e) => Err(e),
    }
}

/// Which side of a position an order acts on, for hedge-mode accounts.
#[derive(Debug, Clone, PartialEq, Eq, Structural)]
pub enum PositionSide {
    Both,
    Long,
    Short,
}

impl PositionSide {
    /// The wire name of the position side.
    pub fn as_str(&self) -> (r: &'static str)
        ensures
            *self is Both ==> r@ == "BOTH"@,
            *self is Long ==> r@ == "LONG"@,
            *self is Short ==> r@ == "SHORT"@,
    {
        match self {
            PositionSide::Both => "BOTH",
            PositionSide::Long => "LONG",
            PositionSide::Short => "SHORT",
        }
    }
}

/// Whether an order may only reduce a position.
#[derive(Debug, Clone, PartialEq, Eq, Structural)]
pub enum ReduceOnly {
    Yes,
    No,
}

impl ReduceOnly {
    /// The wire name of the flag.
    pub fn as_str(&self) -> (r: &'static str)
        ensures
            *self is Yes ==> r@ == "YES"@,
            *self is No ==> r@ == "NO"@,
    {
        match self {
            ReduceOnly::Yes => "YES",
            ReduceOnly::No => "NO",
        }
    }
}

/// The derivatives-market client: the shared signing core bound to the
/// derivatives API host.
#[derive(Clone)]
pub struct Client {
    client: crate::common::client::Client,
}

impl Client {
    /// The credentials this client was built with.
    pub closed spec fn spec_auth(&self) -> Option<Authentication> {
        self.client.spec_auth()
    }

    /// The base URL of the derivatives API host.
    pub closed spec fn spec_base_url(&self) -> Seq<char> {
        self.client.spec_base_url()
    }

    pub fn new(authentication: Option<Authentication>) -> (r: Self)
        ensures
            r.spec_auth() == authentication,
            r.spec_base_url() == "https://fapi.binance.com"@,
    {
        Client { client: crate::common::client::Client::new(API_ROOT, authentication) }
    }

    /// Signs a canonical request body with the client's secret.
    pub fn compute_signature(&self, request_body: &str) -> (r: Result<String, Error>)
        ensures
            self.spec_auth() matches Some(auth) ==> r matches Ok(s) && s@ == hmac_sha256_hex(
                auth.api_secret@,
                request_body@,
            ),
            self.spec_auth() is None ==> (r matches Err(e) && e == Error::MissingCredentials),
    {
        self.client.compute_signature(request_body)
    }

    /// Builds the signed form: freshness window and timestamp appended, then
    /// the signature over exactly that string as the trailing field.
    pub fn sign_form(&self, form: Option<&str>, timestamp_ms: u64) -> (r: Result<String, Error>)
        ensures
            self.spec_auth() matches Some(auth) ==> r matches Ok(s) && s@ == spec_signed_form(
                spec_opt_form(form),
                timestamp_ms,
                auth.api_secret@,
            ),
            self.spec_auth() is None ==> (r matches Err(e) && e == Error::MissingCredentials),
    {
        self.client.sign_form(form, timestamp_ms)
    }

    /// The request headers for this client's credentials.
    pub fn headers(&self) -> (r: Vec<(String, String)>)
        ensures
            self.spec_auth() matches Some(auth) ==> {
                &&& r@.len() == 2
                &&& r@[0].0@ == "X-MBX-APIKEY"@
                &&& r@[0].1@ == auth.api_key@
                &&& r@[1].0@ == "Content-Type"@
                &&& r@[1].1@ == "application/x-www-form-urlencoded"@
            },
            self.spec_auth() is None ==> {
                &&& r@.len() == 1
                &&& r@[0].0@ == "Content-Type"@
                &&& r@[0].1@ == "application/x-www-form-urlencoded"@
            },
    {
        self.client.headers()
    }

    /// A full URL on the derivatives host, with an optional query string.
    pub fn url2(&self, endpoint: &str, query_string: Option<&str>) -> (r: String)
        ensures
            r@ == self.spec_base_url() + endpoint@ + match query_string {
                Some(q) => "?"@ + q@,
                None => Seq::<char>::empty(),
            },
    {
        self.client.url2(endpoint, query_string)
    }

    /// Maps an HTTP status and body to the parsed JSON tree or a classified
    /// error, as `decode_response` does.
    pub fn decode_response(&self, status: u16, body: &str) -> (r: Result<Json, Error>)
        ensures
            spec_is_success(status) ==> match spec_json_of(body@) {
                Some(j) => r == Ok::<Json, Error>(j),
                None => (r matches Err(Error::Decode { error: _, text }) && text@ == body@),
            },
            !spec_is_success(status) ==> (r matches Err(Error::ApiError(api))
                && spec_api_error_result(api, status, body@)),
    {
        decode_response(status, body)
    }

    /// Builds the short signed form used to refresh a listen key.
    pub fn listenkey_form(&self, timestamp_ms: u64) -> (r: Result<String, Error>)
        ensures
            self.spec_auth() matches Some(auth) ==> r matches Ok(s) && {
                let payload = "timestamp="@ + crate::text::spec_u64_dec(timestamp_ms as nat);
                s@ == payload + "&signature="@ + hmac_sha256_hex(auth.api_secret@, payload)
            },
            self.spec_auth() is None ==> (r matches Err(e) && e == Error::MissingCredentials),
    {
        self.client.listenkey_form(timestamp_ms)
    }

    /// Builds the signed form for a cancel-order call: the request's fields
    /// form-encoded, then the freshness window, timestamp and signature
    /// appended by `sign_form`.
    pub fn cancel_order_form(&self, request: &CancelOrder, timestamp_ms: u64) -> (r: Result<
        String,
        Error,
    >)
        ensures
            self.spec_auth() matches Some(auth) ==> r matches Ok(s) && s@ == spec_signed_form(
                urlencoded_of(spec_cancel_pairs(*request)),
                timestamp_ms,
                auth.api_secret@,
            ),
            self.spec_auth() is None ==> (r matches Err(e) && e == Error::MissingCredentials),
    {
        let pairs = request.form_pairs();
        let encoded = urlencode_pairs(&pairs);
        self.sign_form(Some(encoded.as_str()), timestamp_ms)
    }

    /// Builds the signed form for cancelling all open orders of one symbol.
    pub fn cancel_all_form(&self, symbol: &str, timestamp_ms: u64) -> (r: Result<String, Error>)
        ensures
            self.spec_auth() matches Some(auth) ==> r matches Ok(s) && s@ == spec_signed_form(
                urlencoded_of(seq![("symbol"@, symbol@)]),
                timestamp_ms,
                auth.api_secret@,
            ),
            self.spec_auth() is None ==> (r matches Err(e) && e == Error::MissingCredentials),
    {
        let mut pairs: Vec<(String, String)> = Vec::new();
        pairs.push(("symbol".to_owned(), symbol.to_owned()));
        proof {
            assert(crate::text::spec_pair_views(pairs@) =~= seq![("symbol"@, symbol@)]);
        }
        let encoded = urlencode_pairs(&pairs);
        self.sign_form(Some(encoded.as_str()), timestamp_ms)
    }

    /// Decodes a listen-key response body.
    pub fn decode_listenkey(&self, body: &str) -> (r: Result<ListenKeyResponse, Error>)
        ensures
            match spec_json_of(body@) {
                Some(j) => match spec_get_str(j, "listenKey"@) {
                    Some(s) => r matches Ok(resp) && resp.listen_key@ == s,
                    None => (r matches Err(e) && e is Serde),
                },
                None => (r matches Err(e) && e is Serde),
            },
    {
        crate::common::client::decode_listen_key(body)
    }
}

} // verus!
