//! The WebSocket upgrade handshake request.
//!
//! The bridge opens its WebSocket connection with a GET request whose
//! headers carry a fresh base64-encoded 16-byte key, the fixed sub-protocol
//! identifier of the target service, and the fixed upgrade fields. This
//! module builds that request as plain values; performing the handshake is
//! the transport's work and lives outside the library.

use vstd::prelude::*;

verus! {

/// The base64 text that the standard alphabet with padding assigns to a
/// byte sequence.
pub uninterp spec fn base64_of(b: Seq<u8>) -> Seq<char>;

/// Relies on `base64::encode`: the standard alphabet with padding, so the
/// output is a function of the input bytes alone and four characters long
/// for every started group of three input bytes.
#[verifier::external_body]
fn base64_encode(bytes: &Vec<u8>) -> (r: String)
    ensures
        r@ == base64_of(bytes@),
        r@.len() == 4 * ((bytes@.len() + 2) / 3),
{
    base64::encode(bytes.as_slice())
}

/// Relies on `rand::thread_rng` and `Rng::gen`: sixteen bytes from the
/// thread-local generator. Nothing is promised of their values.
#[verifier::external_body]
fn random_key_bytes() -> (r: Vec<u8>)
    ensures
        r@.len() == 16,
{
    let bytes: [u8; 16] = rand::Rng::gen(&mut rand::thread_rng());
    bytes.to_vec()
}

/// One upgrade handshake request, as plain values: the target URL and every
/// header the bridge sends.
#[derive(Debug)]
pub struct HandshakeRequest {
    /// The URL the GET request is sent to.
    pub url: String,
    /// The `Host` header: the configured URL, as the bridge sends it.
    pub host: String,
    /// The `Sec-WebSocket-Key` header: base64 of 16 random bytes.
    pub key: String,
    /// The `Sec-WebSocket-Protocol` header: the target service's namespace.
    pub protocol: String,
    /// The `Sec-WebSocket-Version` header.
    pub version: String,
    /// The `Connection` header.
    pub connection: String,
    /// The `Upgrade` header.
    pub upgrade: String,
}

/// Whether a handshake request carries the fixed fields the bridge always
/// sends toward the given URL.
pub open spec fn handshake_wf(r: HandshakeRequest, url: Seq<char>) -> bool {
    &&& r.url@ == url
    &&& r.host@ == url
    &&& r.protocol@ == "networktables.first.wpi.edu"@
    &&& r.version@ == "13"@
    &&& r.connection@ == "Upgrade"@
    &&& r.upgrade@ == "websocket"@
}

/// Builds the upgrade request for a URL from the given key bytes: every
/// fixed header field, and the key encoded in base64.
pub fn build_handshake(url: &String, key_bytes: &Vec<u8>) -> (r: HandshakeRequest)
    ensures
        handshake_wf(r, url@),
        r.key@ == base64_of(key_bytes@),
        r.key@.len() == 4 * ((key_bytes@.len() + 2) / 3),
{
    HandshakeRequest {
        url: url.clone(),
        host: url.clone(),
        key: base64_encode(key_bytes),
        protocol: "networktables.first.wpi.edu".to_owned(),
        version: "13".to_owned(),
        connection: "Upgrade".to_owned(),
        upgrade: "websocket".to_owned(),
    }
}

/// Builds the upgrade request for a URL with a fresh random key: the key is
/// the base64 of sixteen random bytes, 24 characters long.
pub fn fresh_handshake(url: &String) -> (r: HandshakeRequest)
    ensures
        handshake_wf(r, url@),
        r.key@.len() == 24,
        exists|b: Seq<u8>| b.len() == 16 && r.key@ == base64_of(b),
{
    let key_bytes = random_key_bytes();
    let r = build_handshake(url, &key_bytes);
    assert(key_bytes@.len() == 16 && r.key@ == base64_of(key_bytes@));
    r
}

} // verus!
