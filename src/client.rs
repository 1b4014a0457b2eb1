//! The executor's decisions: building the signed request for a GET, and
//! classifying what the server answered. Sending is left to the caller's transport.

use vstd::prelude::*;
use crate::config::{validation, Config, ConfigError};
use crate::error::ApiError;
use crate::signing::{base64_shape, decimal, decimal_string, signature, signature_digest, signature_header, utf8};

verus! {

#[verifier::external_type_specification]
#[verifier::external_body]
pub struct ExJsonValue(serde_json::Value);

/// Whether serde_json accepts a text as one JSON value.
pub uninterp spec fn json_accepts(text: Seq<char>) -> bool;

/// The value serde_json parses from a JSON text.
pub uninterp spec fn json_value_of(text: Seq<char>) -> serde_json::Value;

/// Bytes that form encoding keeps as they are: letters, digits and `*-._`.
pub open spec fn form_unreserved(b: u8) -> bool {
    b == 0x2A || b == 0x2D || b == 0x2E || b == 0x5F
        || (0x30 <= b && b <= 0x39) || (0x41 <= b && b <= 0x5A) || (0x61 <= b && b <= 0x7A)
}

/// An upper-case hexadecimal digit.
pub open spec fn hex_upper(d: u8) -> char {
    seq!['0', '1', '2', '3', '4', '5', '6', '7', '8', '9', 'A', 'B', 'C', 'D', 'E', 'F'][d as int]
}

/// One byte form-encoded: kept, a space as `+`, anything else as `%XX`.
pub open spec fn form_byte(b: u8) -> Seq<char> {
    if form_unreserved(b) {
        seq![b as char]
    } else if b == 0x20 {
        seq!['+']
    } else {
        seq!['%', hex_upper(b / 16), hex_upper(b % 16)]
    }
}

/// A byte string form-encoded, byte by byte.
pub open spec fn form_bytes(bytes: Seq<u8>) -> Seq<char>
    decreases bytes.len(),
{
    if bytes.len() == 0 {
        Seq::empty()
    } else {
        form_bytes(bytes.drop_last()) + form_byte(bytes.last())
    }
}

/// One pair: `{name}={value}`, each form-encoded from its UTF-8 bytes.
pub open spec fn form_pair(pair: (Seq<char>, Seq<char>)) -> Seq<char> {
    form_bytes(utf8(pair.0)) + "="@ + form_bytes(utf8(pair.1))
}

/// The `application/x-www-form-urlencoded` text of a list of pairs: each pair
/// encoded, in the given order, joined by `&`.
pub open spec fn form_urlencoded(pairs: Seq<(Seq<char>, Seq<char>)>) -> Seq<char>
    decreases pairs.len(),
{
    if pairs.len() == 0 {
        Seq::empty()
    } else if pairs.len() == 1 {
        form_pair(pairs[0])
    } else {
        form_urlencoded(pairs.drop_last()) + "&"@ + form_pair(pairs.last())
    }
}

/// The views of a list of string pairs.
pub open spec fn pairs_view(pairs: Seq<(&str, &str)>) -> Seq<(Seq<char>, Seq<char>)> {
    pairs.map_values(|p: (&str, &str)| (p.0@, p.1@))
}

/// The views of a list of headers.
pub open spec fn headers_view(headers: Seq<(String, String)>) -> Seq<(Seq<char>, Seq<char>)> {
    headers.map_values(|h: (String, String)| (h.0@, h.1@))
}

/// The query string of a call: present only for a non-empty parameter list.
pub open spec fn query_of(params: Option<Seq<(Seq<char>, Seq<char>)>>) -> Option<Seq<char>> {
    match params {
        Some(p) => if p.len() > 0 { Some(form_urlencoded(p)) } else { None },
        None => None,
    }
}

/// `"?{query}"` when a query is present, nothing otherwise.
pub open spec fn query_suffix(query: Option<Seq<char>>) -> Seq<char> {
    match query {
        Some(q) => "?"@ + q,
        None => Seq::empty(),
    }
}

/// The canonical path and query: `"/api/v3{endpoint}"`, then `"?{query}"` if any.
pub open spec fn canonical_path(endpoint: Seq<char>, query: Option<Seq<char>>) -> Seq<char> {
    "/api/v3"@ + endpoint + query_suffix(query)
}

/// The base URL of an instance: `"https://{instance}.threatconnect.com/api/v3"`.
pub open spec fn base_url_of(instance: Seq<char>) -> Seq<char> {
    "https://"@ + instance + ".threatconnect.com/api/v3"@
}

/// The headers every request carries, in order.
pub open spec fn request_headers(authorization: Seq<char>, timestamp: u64) -> Seq<(Seq<char>, Seq<char>)> {
    seq![
        ("Authorization"@, authorization),
        ("Timestamp"@, decimal(timestamp as nat)),
        ("Accept"@, "application/json"@),
        ("Content-Type"@, "application/json"@),
    ]
}

/// Whether a status is in the 2xx class.
pub open spec fn success_status(status: u16) -> bool {
    200 <= status <= 299
}

/// Relies on `serde_urlencoded::to_string` over a sequence of string pairs,
/// which writes each pair through form_urlencoded's `append_pair`: the pairs
/// in order, form-encoded and joined by `&`. A sequence of `(&str, &str)`
/// pairs is always accepted, so the error arm is never taken.
#[verifier::external_body]
fn encode_query(params: &Vec<(&str, &str)>) -> (r: String)
    ensures
        r@ == form_urlencoded(pairs_view(params@)),
{
    match serde_urlencoded::to_string(params) {
        Ok(q) => q,
        Err(_) => String::new(),
    }
}

/// Relies on `serde_json::from_str::<serde_json::Value>`: succeeds exactly on
/// JSON text; on failure hands back the parser's message.
#[verifier::external_body]
fn parse_json(text: &str) -> (r: Result<serde_json::Value, String>)
    ensures
        r is Ok == json_accepts(text@),
        r matches Ok(v) ==> v == json_value_of(text@),
{
    serde_json::from_str::<serde_json::Value>(text).map_err(|e| e.to_string())
}

/// A GET request ready for the transport: its URL and its headers.
#[derive(Debug)]
pub struct PreparedRequest {
    pub url: String,
    pub headers: Vec<(String, String)>,
}

/// The identity of the caller and the instance it talks to. Immutable once built.
#[derive(Clone)]
pub struct ThreatConnectClient {
    access_id: String,
    secret_key: String,
    base_url: String,
}

impl ThreatConnectClient {
    pub closed spec fn spec_access_id(&self) -> Seq<char> {
        self.access_id@
    }

    pub closed spec fn spec_secret_key(&self) -> Seq<char> {
        self.secret_key@
    }

    pub closed spec fn spec_base_url(&self) -> Seq<char> {
        self.base_url@
    }

    /// A client for `https://{instance}.threatconnect.com/api/v3`.
    pub fn new(access_id: String, secret_key: String, instance: String) -> (r: Self)
        ensures
            r.spec_access_id() == access_id@,
            r.spec_secret_key() == secret_key@,
            r.spec_base_url() == base_url_of(instance@),
    {
        let mut base_url = String::from_str("https://");
        base_url.append(instance.as_str());
        base_url.append(".threatconnect.com/api/v3");
        ThreatConnectClient { access_id, secret_key, base_url }
    }

    /// A client from a resolved configuration, refused before any request is
    /// attempted when a field is empty.
    pub fn from_config(config: &Config) -> (r: Result<Self, ConfigError>)
        ensures
            validation(config.tc_access_id@, config.tc_secret_key@, config.tc_instance@) matches Err(e)
                ==> r == Err::<Self, ConfigError>(e),
            r matches Ok(c) ==> {
                &&& validation(config.tc_access_id@, config.tc_secret_key@, config.tc_instance@) is Ok
                &&& c.spec_access_id() == config.tc_access_id@
                &&& c.spec_secret_key() == config.tc_secret_key@
                &&& c.spec_base_url() == base_url_of(config.tc_instance@)
            },
            validation(config.tc_access_id@, config.tc_secret_key@, config.tc_instance@) is Ok ==> r is Ok,
    {
        match config.validate() {
            Ok(()) => Ok(ThreatConnectClient::new(
                config.tc_access_id.clone(),
                config.tc_secret_key.clone(),
                config.tc_instance.clone(),
            )),
            Err(e) => Err(e),
        }
    }

    /// The base URL that requests go to.
    pub fn base_url(&self) -> (r: &str)
        ensures
            r@ == self.spec_base_url(),
    {
        self.base_url.as_str()
    }

    /// Signs `"{path_and_query}:{method}:{timestamp}"` with this client's
    /// secret key and returns the `Authorization` value.
    pub fn sign(&self, method: &str, path_and_query: &str, timestamp: u64) -> (r: Result<String, ApiError>)
        ensures
            r is Ok,
            r matches Ok(s) ==> s@ == signature_header(
                self.spec_secret_key(),
                self.spec_access_id(),
                method@,
                path_and_query@,
                timestamp,
            ),
            base64_shape(32, signature_digest(self.spec_secret_key(), method@, path_and_query@, timestamp)),
    {
        signature(self.secret_key.as_str(), self.access_id.as_str(), method, path_and_query, timestamp)
    }

    /// The signed GET request for `endpoint` with an already encoded query
    /// (if any) at `timestamp`. The query appears identically in the URL and in
    /// the signed path.
    pub fn prepare_signed(&self, endpoint: &str, query: Option<&str>, timestamp: u64) -> (r: Result<PreparedRequest, ApiError>)
        ensures
            r is Ok,
            r matches Ok(req) ==> {
                let q = match query { Some(s) => Some(s@), None => None::<Seq<char>> };
                &&& req.url@ == self.spec_base_url() + endpoint@ + query_suffix(q)
                &&& headers_view(req.headers@) == request_headers(
                    signature_header(
                        self.spec_secret_key(),
                        self.spec_access_id(),
                        "GET"@,
                        canonical_path(endpoint@, q),
                        timestamp,
                    ),
                    timestamp,
                )
            },
    {
        let mut url = String::from_str(self.base_url.as_str());
        url.append(endpoint);
        let mut path = String::from_str("/api/v3");
        path.append(endpoint);
        match query {
            Some(q) => {
                url.append("?");
                url.append(q);
                path.append("?");
                path.append(q);
            },
            None => {},
        }
        let ghost q = match query { Some(s) => Some(s@), None => None::<Seq<char>> };
        assert(path@ == canonical_path(endpoint@, q));
        let authorization = match self.sign("GET", path.as_str(), timestamp) {
            Ok(a) => a,
            Err(e) => { return Err(e); },
        };
        let mut headers: Vec<(String, String)> = Vec::new();
        headers.push((String::from_str("Authorization"), authorization));
        headers.push((String::from_str("Timestamp"), decimal_string(timestamp)));
        headers.push((String::from_str("Accept"), String::from_str("application/json")));
        headers.push((String::from_str("Content-Type"), String::from_str("application/json")));
        assert(headers_view(headers@) =~= request_headers(
            signature_header(self.spec_secret_key(), self.spec_access_id(), "GET"@, path@, timestamp),
            timestamp,
        ));
        Ok(PreparedRequest { url, headers })
    }

    /// The signed GET request for `endpoint` with `params` at `timestamp`. A
    /// non-empty parameter list is form-encoded once, and that one text is both
    /// appended to the URL and signed.
    pub fn prepare_get(&self, endpoint: &str, params: Option<&Vec<(&str, &str)>>, timestamp: u64) -> (r: Result<PreparedRequest, ApiError>)
        ensures
            r is Ok,
            r matches Ok(req) ==> {
                let q = query_of(match params { Some(p) => Some(pairs_view(p@)), None => None });
                &&& req.url@ == self.spec_base_url() + endpoint@ + query_suffix(q)
                &&& headers_view(req.headers@) == request_headers(
                    signature_header(
                        self.spec_secret_key(),
                        self.spec_access_id(),
                        "GET"@,
                        canonical_path(endpoint@, q),
                        timestamp,
                    ),
                    timestamp,
                )
            },
    {
        match params {
            Some(p) => {
                if p.len() > 0 {
                    let q = encode_query(p);
                    self.prepare_signed(endpoint, Some(q.as_str()), timestamp)
                } else {
                    self.prepare_signed(endpoint, None, timestamp)
                }
            },
            None => self.prepare_signed(endpoint, None, timestamp),
        }
    }
}

/// Whether an HTTP status is in the 2xx class.
pub fn is_success(status: u16) -> (r: bool)
    ensures
        r == success_status(status),
{
    200 <= status && status <= 299
}

/// Sorts a response by its status: a 2xx body is handed on for decoding,
/// any other status becomes `Api` with the status and the body as text.
pub fn classify_status(status: u16, body: String) -> (r: Result<String, ApiError>)
    ensures
        success_status(status) ==> (r matches Ok(b) && b@ == body@),
        !success_status(status) ==> (r matches Err(ApiError::Api { status: s, body: b }) && s == status && b@ == body@),
{
    if is_success(status) {
        Ok(body)
    } else {
        Err(ApiError::Api { status, body })
    }
}

/// Decodes a response: outside 2xx the body is not parsed and `Api` carries
/// status and body; a 2xx body that is not JSON gives `Decode` with the raw body.
pub fn decode_response(status: u16, body: String) -> (r: Result<serde_json::Value, ApiError>)
    ensures
        !success_status(status) ==> (r matches Err(ApiError::Api { status: s, body: b }) && s == status && b@ == body@),
        success_status(status) ==> (r is Ok <==> json_accepts(body@)),
        r matches Ok(v) ==> v == json_value_of(body@),
        success_status(status) && r is Err ==> (r matches Err(ApiError::Decode { body: b, .. }) && b@ == body@),
{
    match classify_status(status, body) {
        Ok(text) => match parse_json(text.as_str()) {
            Ok(v) => Ok(v),
            Err(message) => Err(ApiError::Decode { body: text, message }),
        },
        Err(e) => Err(e),
    }
}

} // verus!
