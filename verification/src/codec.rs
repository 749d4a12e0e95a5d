//! Credential encryption: the password, salted by the server, is encrypted
//! under the server-issued PEM public key with PKCS#1 v1.5 padding — the one
//! padding the server's decryption accepts — and shipped as base64.
//!
//! The two outside calls (RSA encryption, base64 encoding) stand behind
//! trusted wrappers; everything around them is verified.

use vstd::prelude::*;

use crate::client::Error;

verus! {

/// Whether `rsa::RsaPublicKey::from_public_key_pem` accepts `pem`: the text
/// parses as a PEM-framed SPKI RSA public key and passes the crate's
/// public-key checks. A function of the text alone.
pub uninterp spec fn pem_has_rsa_key(pem: Seq<char>) -> bool;

/// The byte length of the modulus of the RSA public key that `pem` encodes
/// (meaningful only where `pem_has_rsa_key` holds). A PKCS#1 v1.5 ciphertext
/// under that key is exactly this long. A function of the text alone.
pub uninterp spec fn rsa_modulus_bytes(pem: Seq<char>) -> nat;

/// The standard, padded base64 encoding of `b`. A function of the bytes
/// alone.
pub uninterp spec fn base64_of(b: Seq<u8>) -> Seq<char>;

/// `s` is the base64 encoding of some ciphertext of full modulus length
/// under the key that `pem` encodes: the shape of every encrypted password.
/// Which ciphertext is not determined — the padding is random.
pub open spec fn is_ciphertext_for(s: Seq<char>, pem: Seq<char>) -> bool {
    exists|ct: Seq<u8>| s == base64_of(ct) && ct.len() == rsa_modulus_bytes(pem)
}

/// Relies on `rsa::RsaPublicKey::from_public_key_pem` and
/// `RsaPublicKey::encrypt` with `rsa::Pkcs1v15Encrypt`: parsing accepts a
/// key of at most 4096 modulus bits or nothing, and encryption of a message
/// no longer than the modulus minus 11 bytes returns a ciphertext of exactly
/// modulus length, failing only on a longer message. The padding bytes come
/// from `rand::thread_rng`, so the ciphertext differs from call to call and
/// nothing is stated of its bytes.
#[verifier::external_body]
fn rsa_pkcs1v15_encrypt(pem: &str, msg: &[u8]) -> (r: Option<Vec<u8>>)
    ensures
        r is Some ==> pem_has_rsa_key(pem@) && msg@.len() + 11 <= rsa_modulus_bytes(pem@),
        pem_has_rsa_key(pem@) && msg@.len() + 11 <= rsa_modulus_bytes(pem@) ==> r is Some,
        r matches Some(ct) ==> ct@.len() == rsa_modulus_bytes(pem@) && ct@.len() <= 512,
{
    let key: rsa::RsaPublicKey =
        match <rsa::RsaPublicKey as rsa::pkcs8::DecodePublicKey>::from_public_key_pem(pem) {
            Ok(k) => k,
            Err(_) => {
                return None;
            },
        };
    let mut rng = rand::thread_rng();
    key.encrypt(&mut rng, rsa::Pkcs1v15Encrypt, msg).ok()
}

/// Relies on `base64::Engine::encode` with the standard alphabet and
/// padding: the output is a function of the input bytes alone, four
/// characters for every started group of three bytes.
#[verifier::external_body]
fn base_encode(input: &[u8]) -> (r: String)
    requires
        4 * ((input@.len() + 2) / 3) <= usize::MAX,
    ensures
        r@ == base64_of(input@),
        r@.len() == 4 * ((input@.len() + 2) / 3),
{
    base64::Engine::encode(&base64::engine::general_purpose::STANDARD, input)
}

/// Encrypts `secret` under the PEM-encoded RSA public key `pem` with
/// PKCS#1 v1.5 padding and returns the ciphertext as base64.
///
/// Succeeds exactly when the key parses and the UTF-8 bytes of `secret` fit
/// under it (modulus length minus the 11 padding bytes); every failure is
/// [`Error::CryptoFailure`]. On success the result is the base64 of a
/// full-modulus-length ciphertext — in particular its decoded length equals
/// the modulus byte length. The padding is drawn fresh from a thread-local
/// generator on every call, so two calls on the same input differ.
pub fn rsa_encode(pem: &str, secret: &str) -> (r: Result<String, Error>)
    ensures
        r is Ok <==> pem_has_rsa_key(pem@) && vstd::utf8::encode_utf8(secret@).len() + 11
            <= rsa_modulus_bytes(pem@),
        r matches Ok(s) ==> is_ciphertext_for(s@, pem@) && s@.len() == 4 * ((rsa_modulus_bytes(
            pem@,
        ) + 2) / 3),
        r matches Err(e) ==> e == Error::CryptoFailure,
{
    let bytes: &[u8] = secret.as_bytes();
    match rsa_pkcs1v15_encrypt(pem, bytes) {
        Some(ct) => {
            let s = base_encode(ct.as_slice());
            proof {
                assert(s@ == base64_of(ct@) && ct@.len() == rsa_modulus_bytes(pem@));
            }
            Ok(s)
        },
        None => Err(Error::CryptoFailure),
    }
}

} // verus!
