//! The signing core shared by both markets: credentials, the HMAC-SHA256
//! signer, the signed-form builder, headers, and URL building.
//!
//! The clock is an input here: callers pass the current wall-clock timestamp
//! in milliseconds, so that the signed form is a function of its arguments
//! and can be pinned down exactly.

use vstd::prelude::*;
use vstd::string::*;

use crate::error::Error;
use crate::json::{spec_get_str, spec_json_of};
use crate::text::{spec_u64_dec, u64_to_dec};

verus! {

/// The key pair for authenticated calls. The secret is used only as the
/// HMAC key; the key identifier travels in a request header.
#[derive(Clone)]
pub struct Authentication {
    pub api_secret: String,
    pub api_key: String,
}

/// The lowercase hexadecimal HMAC-SHA256 digest of `message` keyed with
/// `key`, as a function of the two strings alone.
pub uninterp spec fn hmac_sha256_hex(key: Seq<char>, message: Seq<char>) -> Seq<char>;

/// Relies on `hmac::Hmac<sha2::Sha256>`: `new_from_slice` accepts a key of
/// any length, and the digest formatted by generic-array's `LowerHex` is two
/// lowercase hex digits per byte of the 32-byte digest — 64 characters — a
/// function of key and message alone.
#[verifier::external_body]
fn hmac_sha256_hex_digest(key: &str, message: &str) -> (r: String)
    ensures
        r@ == hmac_sha256_hex(key@, message@),
        r@.len() == 64,
{
    let mut mac =
        <hmac::Hmac<sha2::Sha256> as hmac::Mac>::new_from_slice(key.as_bytes()).unwrap();
    hmac::Mac::update(&mut mac, message.as_bytes());
    format!("{:x}", hmac::Mac::finalize(mac).into_bytes())
}

/// The canonical byte string that gets signed: the form body followed by the
/// freshness window and the timestamp, in this fixed order.
pub open spec fn spec_signature_payload(form: Seq<char>, timestamp_ms: u64) -> Seq<char> {
    form + "&recvWindow=1000&timestamp="@ + spec_u64_dec(timestamp_ms as nat)
}

/// The full signed form: the signature is computed over exactly the payload
/// that precedes it and is appended as the trailing field.
pub open spec fn spec_signed_form(form: Seq<char>, timestamp_ms: u64, secret: Seq<char>) -> Seq<
    char,
> {
    spec_signature_payload(form, timestamp_ms) + "&signature="@ + hmac_sha256_hex(
        secret,
        spec_signature_payload(form, timestamp_ms),
    )
}

/// Law: signing is deterministic. Two signed forms built from the same form
/// body, the same timestamp and the same secret are identical, character for
/// character.
pub proof fn lemma_signing_deterministic(
    r1: Seq<char>,
    r2: Seq<char>,
    form: Seq<char>,
    timestamp_ms: u64,
    secret: Seq<char>,
)
    requires
        r1 == spec_signed_form(form, timestamp_ms, secret),
        r2 == spec_signed_form(form, timestamp_ms, secret),
    ensures
        r1 == r2,
{
}

/// The form body an optional form argument denotes: absent means empty.
pub open spec fn spec_opt_form(form: Option<&str>) -> Seq<char> {
    match form {
        Some(f) => f@,
        None => Seq::empty(),
    }
}

/// A client core holding the optional credentials and the base URL of one
/// market's API host.
#[derive(Clone)]
pub struct Client {
    auth: Option<Authentication>,
    base_url: String,
}

impl Client {
    /// The credentials this client was built with.
    pub closed spec fn spec_auth(&self) -> Option<Authentication> {
        self.auth
    }

    /// The base URL this client was built with.
    pub closed spec fn spec_base_url(&self) -> Seq<char> {
        self.base_url@
    }

    pub fn new(base_url: &str, authentication: Option<Authentication>) -> (r: Self)
        ensures
            r.spec_auth() == authentication,
            r.spec_base_url() == base_url@,
    {
        Client { auth: authentication, base_url: base_url.to_owned() }
    }

    /// Signs a canonical request body: the lowercase hex HMAC-SHA256 digest
    /// keyed with the client's secret. Fails exactly when the client was
    /// built without credentials.
    pub fn compute_signature(&self, request_body: &str) -> (r: Result<String, Error>)
        ensures
            self.spec_auth() matches Some(auth) ==> r matches Ok(s) && s@ == hmac_sha256_hex(
                auth.api_secret@,
                request_body@,
            ),
            self.spec_auth() is None ==> (r matches Err(e) && e == Error::MissingCredentials),
    {
        match &self.auth {
            Some(auth) => Ok(hmac_sha256_hex_digest(auth.api_secret.as_str(), request_body)),
            None => Err(Error::MissingCredentials),
        }
    }

    /// Builds the signed form for an authenticated call: appends the
    /// freshness window and `timestamp_ms` to `form`, signs exactly that
    /// string, and appends the signature as the trailing field.
    pub fn sign_form(&self, form: Option<&str>, timestamp_ms: u64) -> (r: Result<String, Error>)
        ensures
            self.spec_auth() matches Some(auth) ==> r matches Ok(s) && s@ == spec_signed_form(
                spec_opt_form(form),
                timestamp_ms,
                auth.api_secret@,
            ),
            self.spec_auth() is None ==> (r matches Err(e) && e == Error::MissingCredentials),
    {
        let mut payload = match form {
            Some(f) => f.to_owned(),
            None => String::new(),
        };
        payload.append("&recvWindow=1000&timestamp=");
        payload.append(u64_to_dec(timestamp_ms).as_str());
        proof {
            assert(payload@ =~= spec_signature_payload(spec_opt_form(form), timestamp_ms));
        }
        let signature = match self.compute_signature(payload.as_str()) {
            Ok(s) => s,
            Err(e) => {
                return Err(e);
            },
        };
        let mut out = payload;
        out.append("&signature=");
        out.append(signature.as_str());
        proof {
            if self.spec_auth() is Some {
                assert(out@ =~= spec_signed_form(
                    spec_opt_form(form),
                    timestamp_ms,
                    self.spec_auth()->0.api_secret@,
                ));
            }
        }
        Ok(out)
    }

    /// Builds the short signed form used to refresh a listen key: only the
    /// timestamp and the trailing signature over it.
    pub fn listenkey_form(&self, timestamp_ms: u64) -> (r: Result<String, Error>)
        ensures
            self.spec_auth() matches Some(auth) ==> r matches Ok(s) && {
                let payload = "timestamp="@ + spec_u64_dec(timestamp_ms as nat);
                s@ == payload + "&signature="@ + hmac_sha256_hex(auth.api_secret@, payload)
            },
            self.spec_auth() is None ==> (r matches Err(e) && e == Error::MissingCredentials),
    {
        let mut payload = "timestamp=".to_owned();
        payload.append(u64_to_dec(timestamp_ms).as_str());
        let signature = match self.compute_signature(payload.as_str()) {
            Ok(s) => s,
            Err(e) => {
                return Err(e);
            },
        };
        let mut out = payload;
        out.append("&signature=");
        out.append(signature.as_str());
        proof {
            if self.spec_auth() is Some {
                let payload_view = "timestamp="@ + spec_u64_dec(timestamp_ms as nat);
                assert(out@ =~= payload_view + "&signature="@ + hmac_sha256_hex(
                    self.spec_auth()->0.api_secret@,
                    payload_view,
                ));
            }
        }
        Ok(out)
    }

    /// The request headers: the API-key header when credentials are present,
    /// and the form content type always.
    pub fn headers(&self) -> (r: Vec<(String, String)>)
        ensures
            self.spec_auth() matches Some(auth) ==> {
                &&& r@.len() == 2
                &&& r@[0].0@ == "X-MBX-APIKEY"@
                &&& r@[0].1@ == auth.api_key@
                &&& r@[1].0@ == "Content-Type"@
                &&& r@[1].1@ == "application/x-www-form-urlencoded"@
            },
            self.spec_auth() is None ==> {
                &&& r@.len() == 1
                &&& r@[0].0@ == "Content-Type"@
                &&& r@[0].1@ == "application/x-www-form-urlencoded"@
            },
    {
        let mut headers: Vec<(String, String)> = Vec::new();
        if let Some(auth) = &self.auth {
            headers.push(("X-MBX-APIKEY".to_owned(), auth.api_key.clone()));
        }
        headers.push(("Content-Type".to_owned(), "application/x-www-form-urlencoded".to_owned()));
        headers
    }

    /// A full URL from the base URL and the endpoint.
    pub fn url(&self, endpoint: &str) -> (r: String)
        ensures
            r@ == self.spec_base_url() + endpoint@,
    {
        let mut out = self.base_url.clone();
        out.append(endpoint);
        out
    }

    /// A full URL from the base URL, the endpoint, and an optional query
    /// string appended after `?`.
    pub fn url2(&self, endpoint: &str, query_string: Option<&str>) -> (r: String)
        ensures
            r@ == self.spec_base_url() + endpoint@ + match query_string {
                Some(q) => "?"@ + q@,
                None => Seq::<char>::empty(),
            },
    {
        let mut out = self.base_url.clone();
        out.append(endpoint);
        if let Some(q) = query_string {
            out.append("?");
            out.append(q);
        }
        proof {
            assert(out@ =~= self.spec_base_url() + endpoint@ + match query_string {
                Some(q) => "?"@ + q@,
                None => Seq::<char>::empty(),
            });
        }
        out
    }
}

/// The response to creating or refreshing a listen key.
#[derive(Debug)]
pub struct ListenKeyResponse {
    pub listen_key: String,
}

/// Decodes a listen-key response body: `Ok` exactly when the body is JSON
/// with a string field `listenKey`.
pub fn decode_listen_key(body: &str) -> (r: Result<ListenKeyResponse, Error>)
    ensures
        match spec_json_of(body@) {
            Some(j) => match spec_get_str(j, "listenKey"@) {
                Some(s) => r matches Ok(resp) && resp.listen_key@ == s,
                None => r matches Err(e) && e is Serde,
            },
            None => r matches Err(e) && e is Serde,
        },
{
    match crate::json::parse_json(body) {
        Ok(j) => match j.get_str("listenKey") {
            Some(s) => Ok(ListenKeyResponse { listen_key: s.clone() }),
            None => Err(Error::Serde("missing string field listenKey".to_owned())),
        },
        Err(e) => Err(Error::Serde(e)),
    }
}

} // verus!
