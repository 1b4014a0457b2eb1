//! The failures that a signed request can end in.

use vstd::prelude::*;

verus! {

/// Why a request did not produce a decoded value.
#[derive(Debug)]
pub enum ApiError {
    /// The secret key was refused as HMAC key material.
    Signing,
    /// The network exchange itself failed (DNS, TLS, connection, timeout).
    Transport { message: String },
    /// The server answered with a status outside 2xx; the body is kept as text.
    Api { status: u16, body: String },
    /// A 2xx body did not parse as the expected JSON; the raw body is kept.
    Decode { body: String, message: String },
}

impl ApiError {
    /// The HTTP status carried by an `Api` error.
    pub fn status(&self) -> (r: Option<u16>)
        ensures
            r == (match self {
                ApiError::Api { status, .. } => Some(*status),
                _ => None::<u16>,
            }),
    {
        match self {
            ApiError::Api { status, .. } => Some(*status),
            _ => None,
        }
    }
}

} // verus!
