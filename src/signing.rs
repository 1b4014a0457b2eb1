//! The request signature: the canonical message, its HMAC-SHA256 digest under
//! the secret key, and the `Authorization` header value built from it.

use vstd::prelude::*;
use crate::error::ApiError;

verus! {

/// The HMAC-SHA256 tag of `msg` under `key`, as computed by the hmac and sha2 crates.
pub uninterp spec fn hmac_sha256(key: Seq<u8>, msg: Seq<u8>) -> Seq<u8>;

/// The standard, padded base64 text of `bytes`, as computed by the base64 crate.
pub uninterp spec fn base64_standard(bytes: Seq<u8>) -> Seq<char>;

/// A character of the standard base64 alphabet: `A-Z`, `a-z`, `0-9`, `+`, `/`.
pub open spec fn base64_char(c: char) -> bool {
    ('A' <= c && c <= 'Z') || ('a' <= c && c <= 'z') || ('0' <= c && c <= '9') || c == '+' || c == '/'
}

/// How many `=` end the padded base64 text of `n` bytes.
pub open spec fn base64_padding(n: nat) -> nat {
    if n % 3 == 0 { 0 } else if n % 3 == 1 { 2 } else { 1 }
}

/// The shape of padded base64 text for `n` bytes: four characters for each
/// started group of three bytes, alphabet characters, then the padding.
pub open spec fn base64_shape(n: nat, text: Seq<char>) -> bool {
    &&& text.len() == 4 * ((n + 2) / 3)
    &&& forall|i: int| 0 <= i < text.len() - base64_padding(n) ==> base64_char(#[trigger] text[i])
    &&& forall|i: int| text.len() - base64_padding(n) <= i < text.len() ==> #[trigger] text[i] == '='
}

/// The decimal digit character for `d`.
pub open spec fn digit_char(d: nat) -> char {
    if d == 0 { '0' }
    else if d == 1 { '1' }
    else if d == 2 { '2' }
    else if d == 3 { '3' }
    else if d == 4 { '4' }
    else if d == 5 { '5' }
    else if d == 6 { '6' }
    else if d == 7 { '7' }
    else if d == 8 { '8' }
    else { '9' }
}

/// The decimal text of `n`, without leading zeros.
pub open spec fn decimal(n: nat) -> Seq<char>
    decreases n,
{
    if n < 10 {
        seq![digit_char(n)]
    } else {
        decimal(n / 10).push(digit_char(n % 10))
    }
}

/// The message that is signed: `"{path_and_query}:{method}:{timestamp}"`.
pub open spec fn signing_message(path_and_query: Seq<char>, method: Seq<char>, timestamp: u64) -> Seq<char> {
    path_and_query + ":"@ + method + ":"@ + decimal(timestamp as nat)
}

/// The `Authorization` value for an access id and a base64 digest: `"TC {id}:{digest}"`.
pub open spec fn authorization_text(access_id: Seq<char>, encoded_digest: Seq<char>) -> Seq<char> {
    "TC "@ + access_id + ":"@ + encoded_digest
}

/// The UTF-8 encoding of a text.
pub open spec fn utf8(s: Seq<char>) -> Seq<u8> {
    vstd::utf8::encode_utf8(s)
}

/// The base64 digest of a request's signed message.
pub open spec fn signature_digest(
    secret_key: Seq<char>,
    method: Seq<char>,
    path_and_query: Seq<char>,
    timestamp: u64,
) -> Seq<char> {
    base64_standard(hmac_sha256(utf8(secret_key), utf8(signing_message(path_and_query, method, timestamp))))
}

/// The full signature header for a request.
pub open spec fn signature_header(
    secret_key: Seq<char>,
    access_id: Seq<char>,
    method: Seq<char>,
    path_and_query: Seq<char>,
    timestamp: u64,
) -> Seq<char> {
    authorization_text(access_id, signature_digest(secret_key, method, path_and_query, timestamp))
}

/// Relies on hmac's `Mac::new_from_slice`, `update` and `finalize` over sha2's `Sha256`:
/// the 32-byte tag of `msg` under `key`. `new_from_slice` accepts a key of any length.
#[verifier::external_body]
fn hmac_sha256_tag(key: &[u8], msg: &[u8]) -> (r: Option<Vec<u8>>)
    ensures
        r is Some,
        r matches Some(t) ==> t@ == hmac_sha256(key@, msg@) && t@.len() == 32,
{
    match <hmac::Hmac<sha2::Sha256> as hmac::Mac>::new_from_slice(key) {
        Ok(mut mac) => {
            hmac::Mac::update(&mut mac, msg);
            Some(hmac::Mac::finalize(mac).into_bytes().to_vec())
        },
        Err(_) => None,
    }
}

/// Relies on base64's `Engine::encode` with the `STANDARD` engine: padded
/// standard base64, whose length `encoded_len` gives and whose characters come
/// from the standard alphabet, then `=` padding.
#[verifier::external_body]
fn encode_base64(bytes: &[u8]) -> (r: String)
    requires
        bytes@.len() <= usize::MAX / 4,
    ensures
        r@ == base64_standard(bytes@),
        base64_shape(bytes@.len(), r@),
{
    base64::Engine::encode(&base64::engine::general_purpose::STANDARD, bytes)
}

fn digit_str(d: u64) -> (r: &'static str)
    requires
        d < 10,
    ensures
        r@ == seq![digit_char(d as nat)],
{
    proof {
        reveal_strlit("0");
        reveal_strlit("1");
        reveal_strlit("2");
        reveal_strlit("3");
        reveal_strlit("4");
        reveal_strlit("5");
        reveal_strlit("6");
        reveal_strlit("7");
        reveal_strlit("8");
        reveal_strlit("9");
    }
    if d == 0 { "0" }
    else if d == 1 { "1" }
    else if d == 2 { "2" }
    else if d == 3 { "3" }
    else if d == 4 { "4" }
    else if d == 5 { "5" }
    else if d == 6 { "6" }
    else if d == 7 { "7" }
    else if d == 8 { "8" }
    else { "9" }
}

/// The decimal text of `n`.
pub fn decimal_string(n: u64) -> (r: String)
    ensures
        r@ == decimal(n as nat),
    decreases n,
{
    if n < 10 {
        String::from_str(digit_str(n))
    } else {
        let mut s = decimal_string(n / 10);
        s.append(digit_str(n % 10));
        proof {
            assert(decimal(n as nat) == decimal((n / 10) as nat).push(digit_char((n % 10) as nat)));
        }
        s
    }
}

/// The canonical message `"{path_and_query}:{method}:{timestamp}"`.
pub fn canonical_message(path_and_query: &str, method: &str, timestamp: u64) -> (r: String)
    ensures
        r@ == signing_message(path_and_query@, method@, timestamp),
{
    let mut m = String::from_str(path_and_query);
    m.append(":");
    m.append(method);
    m.append(":");
    let digits = decimal_string(timestamp);
    m.append(digits.as_str());
    m
}

/// The `Authorization` value `"TC {access_id}:{encoded_digest}"`.
pub fn authorization_value(access_id: &str, encoded_digest: &str) -> (r: String)
    ensures
        r@ == authorization_text(access_id@, encoded_digest@),
{
    let mut h = String::from_str("TC ");
    h.append(access_id);
    h.append(":");
    h.append(encoded_digest);
    h
}

/// Signs a request: the HMAC-SHA256 of the canonical message under the secret
/// key, base64-encoded, in a `TC` authorization value.
pub fn signature(
    secret_key: &str,
    access_id: &str,
    method: &str,
    path_and_query: &str,
    timestamp: u64,
) -> (r: Result<String, ApiError>)
    ensures
        r is Ok,
        r matches Ok(s) ==> s@ == signature_header(secret_key@, access_id@, method@, path_and_query@, timestamp),
        base64_shape(32, signature_digest(secret_key@, method@, path_and_query@, timestamp)),
{
    let message = canonical_message(path_and_query, method, timestamp);
    match hmac_sha256_tag(secret_key.as_bytes(), message.as_str().as_bytes()) {
        Some(tag) => {
            let encoded = encode_base64(tag.as_slice());
            Ok(authorization_value(access_id, encoded.as_str()))
        },
        None => Err(ApiError::Signing),
    }
}

} // verus!
