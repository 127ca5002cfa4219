use vstd::prelude::*;
use crate::error::Error;
use base64::Engine;

verus! {

/// What base64's STANDARD engine encodes `bytes` as.
pub uninterp spec fn base64_text(bytes: Seq<u8>) -> Seq<char>;

/// What base64's STANDARD engine decodes `text` to; `None` where it rejects the text.
pub uninterp spec fn base64_bytes(text: Seq<char>) -> Option<Seq<u8>>;

/// The X25519 public key of the secret scalar `secret`.
pub uninterp spec fn x25519_public_of(secret: Seq<u8>) -> Seq<u8>;

/// Relies on x25519_dalek's `StaticSecret::random_from_rng` over rand's `OsRng`:
/// 32 bytes from the operating system's secure random source.
#[verifier::external_body]
fn random_secret() -> (r: [u8; 32]) {
    x25519_dalek::StaticSecret::random_from_rng(rand::rngs::OsRng).to_bytes()
}

/// Relies on x25519_dalek's `PublicKey::from(&StaticSecret)`: the public key
/// that belongs to the secret, a function of its bytes alone.
#[verifier::external_body]
fn public_key_of(secret: &[u8; 32]) -> (r: [u8; 32])
    ensures
        r@ == x25519_public_of(secret@),
{
    let secret = x25519_dalek::StaticSecret::from(*secret);
    x25519_dalek::PublicKey::from(&secret).to_bytes()
}

/// Relies on base64's `STANDARD.encode`: padded standard base64, four
/// characters per started group of three bytes, which the same engine decodes
/// back to the input.
#[verifier::external_body]
fn encode_key(bytes: &[u8; 32]) -> (r: String)
    ensures
        r@ == base64_text(bytes@),
        r@.len() == 44,
        base64_bytes(r@) == Some(bytes@),
{
    base64::engine::general_purpose::STANDARD.encode(bytes)
}

/// Relies on base64's `STANDARD.decode`: the decoded bytes, or the decoder's
/// description of why the text is not standard base64.
#[verifier::external_body]
fn decode_text(text: &str) -> (r: Result<Vec<u8>, String>)
    ensures
        match base64_bytes(text@) {
            Some(b) => r matches Ok(v) && v@ == b,
            None => r is Err,
        },
{
    base64::engine::general_purpose::STANDARD.decode(text).map_err(|e| e.to_string())
}

/// The 32-byte key that `text` encodes, if it encodes exactly 32 bytes.
pub open spec fn key_of(text: Seq<char>) -> Option<Seq<u8>> {
    match base64_bytes(text) {
        Some(b) => if b.len() == 32 {
            Some(b)
        } else {
            None
        },
        None => None,
    }
}

fn decode_key(encoded: &str, what: &str, title: &str) -> (r: Result<[u8; 32], Error>)
    ensures
        match key_of(encoded@) {
            Some(k) => r matches Ok(key) && key@ == k,
            None => r matches Err(Error::CryptoError(_)),
        },
{
    let decoded = match decode_text(encoded) {
        Ok(v) => v,
        Err(reason) => {
            let mut message = "Failed to decode ".to_owned();
            message.append(what);
            message.append(": ");
            message.append(reason.as_str());
            return Err(Error::CryptoError(message));
        },
    };
    if decoded.len() != 32 {
        let mut message = title.to_owned();
        message.append(" must be 32 bytes");
        return Err(Error::CryptoError(message));
    }
    let mut key = [0u8; 32];
    let mut i: usize = 0;
    while i < 32
        invariant
            i <= 32,
            decoded@.len() == 32,
            forall|j: int| 0 <= j < i ==> key@[j] == decoded@[j],
        decreases 32 - i,
    {
        key[i] = decoded[i];
        i = i + 1;
    }
    assert(key@ =~= decoded@);
    Ok(key)
}

/// Decodes a private key: fails unless the text is standard base64 of exactly 32 bytes.
pub fn decode_private_key(encoded: &str) -> (r: Result<[u8; 32], Error>)
    ensures
        match key_of(encoded@) {
            Some(k) => r matches Ok(key) && key@ == k,
            None => r matches Err(Error::CryptoError(_)),
        },
{
    decode_key(encoded, "private key", "Private key")
}

/// Decodes a public key: fails unless the text is standard base64 of exactly 32 bytes.
pub fn decode_public_key(encoded: &str) -> (r: Result<[u8; 32], Error>)
    ensures
        match key_of(encoded@) {
            Some(k) => r matches Ok(key) && key@ == k,
            None => r matches Err(Error::CryptoError(_)),
        },
{
    decode_key(encoded, "public key", "Public key")
}

/// A fresh X25519 key pair `(private, public)`, both in standard base64. Both
/// texts are non-empty and decode to 32-byte keys, the public one being the
/// key that belongs to the private one.
pub fn generate_keypair() -> (r: Result<(String, String), Error>)
    ensures
        r matches Ok((private, public)) && {
            &&& private@.len() == 44
            &&& public@.len() == 44
            &&& key_of(private@) is Some
            &&& key_of(public@) == Some(x25519_public_of(key_of(private@)->0))
            &&& private@ == base64_text(key_of(private@)->0)
            &&& public@ == base64_text(x25519_public_of(key_of(private@)->0))
        },
{
    let secret = random_secret();
    let public = public_key_of(&secret);
    let private_text = encode_key(&secret);
    let public_text = encode_key(&public);
    Ok((private_text, public_text))
}

} // verus!
