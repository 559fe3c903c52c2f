//! The outside calls the library relies on, each behind a single trusted
//! declaration: SHA-256 digests, Ed25519 signature verification, base64
//! decoding, URL host extraction, the system clock, and `String::push`,
//! which vstd leaves unspecified.

use vstd::prelude::*;
use base64::Engine;
use sha2::Digest;

verus! {

/// `String::push` appends one character.
pub assume_specification[ String::push ](s: &mut String, c: char)
    ensures
        final(s)@ == old(s)@.push(c),
;

/// The SHA-256 digest of a byte string; a function of the input alone.
pub uninterp spec fn sha256_of(data: Seq<u8>) -> Seq<u8>;

/// Relies on sha2's `Sha256::digest`: a 32-byte digest of the input bytes.
#[verifier::external_body]
pub fn sha256(data: &[u8]) -> (r: Vec<u8>)
    ensures
        r@ == sha256_of(data@),
        r@.len() == 32,
{
    sha2::Sha256::digest(data).to_vec()
}

/// Whether 64 signature bytes verify over a message under 32 public-key
/// bytes; false as well when the key bytes decode to no valid key.
pub uninterp spec fn ed25519_verifies(key: Seq<u8>, msg: Seq<u8>, sig: Seq<u8>) -> bool;

/// Relies on ed25519-dalek's `VerifyingKey::from_bytes` and
/// `Verifier::verify`, both functions of their byte arguments alone.
#[verifier::external_body]
pub fn ed25519_verify(key: &[u8], msg: &[u8], sig: &[u8]) -> (r: bool)
    requires
        key@.len() == 32,
        sig@.len() == 64,
    ensures
        r == ed25519_verifies(key@, msg@, sig@),
{
    let mut kb = [0u8; 32];
    kb.copy_from_slice(key);
    let mut sb = [0u8; 64];
    sb.copy_from_slice(sig);
    match ed25519_dalek::VerifyingKey::from_bytes(&kb) {
        Ok(vk) => {
            let s = ed25519_dalek::Signature::from_bytes(&sb);
            ed25519_dalek::Verifier::verify(&vk, msg, &s).is_ok()
        }
        Err(_) => false,
    }
}

/// What standard-alphabet base64 decoding yields for a text, if anything;
/// a function of the text alone.
pub uninterp spec fn base64_decode_of(s: Seq<char>) -> Option<Seq<u8>>;

/// Relies on base64's `Engine::decode` with the standard alphabet.
#[verifier::external_body]
pub fn base64_decode(s: &str) -> (r: Option<Vec<u8>>)
    ensures
        match r {
            Some(v) => base64_decode_of(s@) == Some(v@),
            None => base64_decode_of(s@) is None,
        },
{
    match base64::engine::general_purpose::STANDARD.decode(s) {
        Ok(v) => Some(v),
        Err(_) => None,
    }
}

/// The host of a URL text, if it parses and names one; a function of the
/// text alone.
pub uninterp spec fn url_host_of(url: Seq<char>) -> Option<Seq<char>>;

/// Relies on url's `Url::parse` and `Url::host_str`.
#[verifier::external_body]
pub fn url_host(url: &str) -> (r: Option<String>)
    ensures
        match r {
            Some(h) => url_host_of(url@) == Some(h@),
            None => url_host_of(url@) is None,
        },
{
    match url::Url::parse(url) {
        Ok(u) => u.host_str().map(|h| h.to_string()),
        Err(_) => None,
    }
}

/// Relies on std's `SystemTime::now`: whole seconds since the Unix epoch,
/// whatever the clock says; zero if the clock sits before the epoch.
#[verifier::external_body]
pub fn now_unix_secs() -> (r: u64)
    ensures
        r >= 0,
{
    match std::time::SystemTime::now().duration_since(std::time::UNIX_EPOCH) {
        Ok(d) => d.as_secs(),
        Err(_) => 0,
    }
}

} // verus!
