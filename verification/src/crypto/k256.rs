//! secp256k1: key generation, public-key encoding, signing and checking.

use vstd::prelude::*;
use crate::crypto::{
    base64url_unpadded, bytes_result, bytes_view, encode_base64url, encode_public_key,
    encoded_public_key, jwk_curve_name, text_result, CryptoError, Curve,
};

verus! {

/// The SEC1 encoding, compressed or not, of the public key of the secp256k1
/// secret key written in `jwk`, or `None` where `jwk` is no such key.
pub uninterp spec fn k256_public_point(jwk: Seq<char>, compress: bool) -> Option<Seq<u8>>;

/// The fixed-width signature that the secp256k1 secret key written in `jwk`
/// gives to `payload`, or `None` where `jwk` is no such key or signing
/// fails.
pub uninterp spec fn k256_signature(jwk: Seq<char>, payload: Seq<u8>) -> Option<Seq<u8>>;

/// Whether `point` is the SEC1 encoding of a secp256k1 public key.
pub uninterp spec fn k256_point_parses(point: Seq<u8>) -> bool;

/// Whether `signature` is a fixed-width secp256k1 signature of `message` that
/// verifies under the public key with SEC1 encoding `point`.
pub uninterp spec fn k256_verifies(point: Seq<u8>, signature: Seq<u8>, message: Seq<u8>) -> bool;

/// The multibase public key of the secp256k1 secret key written in `jwk`.
pub open spec fn did_key_of(jwk: Seq<char>) -> Result<Seq<char>, CryptoError> {
    match k256_public_point(jwk, true) {
        Some(point) => Ok(encoded_public_key(Curve::K256, point)),
        None => Err(CryptoError::KeyDecoding),
    }
}

/// The signature of `payload` by the secp256k1 secret key written in `jwk`.
pub open spec fn signature_bytes(jwk: Seq<char>, payload: Seq<u8>) -> Result<
    Seq<u8>,
    CryptoError,
> {
    if k256_public_point(jwk, true) is None {
        Err(CryptoError::KeyDecoding)
    } else {
        match k256_signature(jwk, payload) {
            Some(signature) => Ok(signature),
            None => Err(CryptoError::Signature),
        }
    }
}

/// The same signature in base64url.
pub open spec fn signature_text(jwk: Seq<char>, payload: Seq<u8>) -> Result<
    Seq<char>,
    CryptoError,
> {
    match signature_bytes(jwk, payload) {
        Ok(signature) => Ok(base64url_unpadded(signature)),
        Err(e) => Err(e),
    }
}

/// What checking `signature` over `message` against the secp256k1 point `point`
/// comes to.
pub open spec fn verification(point: Seq<u8>, signature: Seq<u8>, message: Seq<u8>) -> Result<
    (),
    CryptoError,
> {
    if !k256_point_parses(point) {
        Err(CryptoError::KeyDecoding)
    } else if !k256_verifies(point, signature, message) {
        Err(CryptoError::Signature)
    } else {
        Ok(())
    }
}

/// A fresh secp256k1 secret key as JSON Web Key text. Rests on
/// `SecretKey::random` with the thread's random number generator and on
/// `SecretKey::to_jwk_string`. Which key is drawn is left open. Whichever
/// it is, the text has a public point: `random` gives a scalar that is not
/// zero, `to_jwk_string` writes `kty`, the curve's `crv`, the coordinates
/// of the scalar's public key and the scalar itself, and the parsing and
/// conversion that `public_point` rests on read those members back and
/// accept a scalar in range whose public key is the one written.
#[verifier::external_body]
fn random_secret_jwk() -> (jwk: String)
    ensures
        k256_public_point(jwk@, true) is Some,
{
    ::k256::SecretKey::random(&mut rand::thread_rng()).to_jwk_string().to_string()
}

/// Derives the public point of a secret key. Rests on the `FromStr` impl
/// of `JwkEcKey`, on `SecretKey::try_from`, which refuses a key of another
/// curve or without a valid secret scalar, on `SecretKey::public_key`, and
/// on `ToEncodedPoint::to_encoded_point`. The conversion to a secret key
/// demands that the key's `crv` member is `secp256k1`.
#[verifier::external_body]
fn public_point(jwk: &str, compress: bool) -> (point: Option<Vec<u8>>)
    ensures
        bytes_view(point) == k256_public_point(jwk@, compress),
        point is Some ==> jwk_curve_name(jwk@) == Some("secp256k1"@),
{
    let key = jwk.parse::<elliptic_curve::JwkEcKey>().ok()?;
    let secret = ::k256::SecretKey::try_from(&key).ok()?;
    let public = secret.public_key();
    let encoded = elliptic_curve::sec1::ToEncodedPoint::to_encoded_point(&public, compress);
    Some(encoded.as_bytes().to_vec())
}

/// Signs bytes. Rests on the same key decoding as `public_point`, on
/// `SigningKey::from`, on `Signer::try_sign`, which hashes the message with
/// SHA-256 and picks the ephemeral scalar by RFC 6979, so that equal inputs
/// give equal signatures, and on `Signature::to_bytes`, the fixed-width
/// concatenation of `r` and `s`.
#[verifier::external_body]
fn sign_bytes(jwk: &str, payload: &[u8]) -> (signature: Option<Vec<u8>>)
    ensures
        bytes_view(signature) == k256_signature(jwk@, payload@),
{
    let key = jwk.parse::<elliptic_curve::JwkEcKey>().ok()?;
    let secret = ::k256::SecretKey::try_from(&key).ok()?;
    let signing_key = ::k256::ecdsa::SigningKey::from(secret);
    let signature: ::k256::ecdsa::Signature =
        ecdsa::signature::Signer::try_sign(&signing_key, payload).ok()?;
    Some(signature.to_bytes().to_vec())
}

/// Tests whether bytes encode a public key. Rests on
/// `VerifyingKey::from_sec1_bytes`.
#[verifier::external_body]
fn point_parses(point: &[u8]) -> (ok: bool)
    ensures
        ok == k256_point_parses(point@),
{
    ::k256::ecdsa::VerifyingKey::from_sec1_bytes(point).is_ok()
}

/// Tests a signature. Rests on `VerifyingKey::from_sec1_bytes`, on
/// `Signature::from_slice`, which wants exactly 64 bytes with `r` and `s`
/// in range, and on `Verifier::verify`; false where any of them fails.
#[verifier::external_body]
fn verifies(point: &[u8], signature: &[u8], message: &[u8]) -> (ok: bool)
    ensures
        ok == k256_verifies(point@, signature@, message@),
{
    let Ok(key) = ::k256::ecdsa::VerifyingKey::from_sec1_bytes(point) else { return false };
    let Ok(parsed) = ::k256::ecdsa::Signature::from_slice(signature) else { return false };
    ecdsa::signature::Verifier::verify(&key, message, &parsed).is_ok()
}

/// The multibase public key of the secp256k1 secret key written in `jwk`.
pub fn jwk_to_did_key(jwk: &str) -> (out: Result<String, CryptoError>)
    ensures
        text_result(out) == did_key_of(jwk@),
        out is Ok ==> jwk_curve_name(jwk@) == Some("secp256k1"@),
{
    match public_point(jwk, true) {
        Some(point) => Ok(encode_public_key(Curve::K256, &point)),
        None => Err(CryptoError::KeyDecoding),
    }
}

/// The secret key `secret_jwk` together with its multibase public key.
pub fn key_pair(secret_jwk: String) -> (out: Result<(String, String), CryptoError>)
    ensures
        match out {
            Ok(pair) => pair.0@ == secret_jwk@ && did_key_of(secret_jwk@) == Ok::<
                Seq<char>,
                CryptoError,
            >(pair.1@),
            Err(e) => did_key_of(secret_jwk@) == Err::<Seq<char>, CryptoError>(e),
        },
        out is Ok ==> jwk_curve_name(secret_jwk@) == Some("secp256k1"@),
{
    match jwk_to_did_key(secret_jwk.as_str()) {
        Ok(public) => Ok((secret_jwk, public)),
        Err(e) => Err(e),
    }
}

/// A fresh secp256k1 key pair: the secret key as JSON Web Key text, and its
/// multibase public key. A pair always comes: the secret names `secp256k1`,
/// and the public key is the one that `jwk_to_did_key` derives from it.
pub fn gen_key() -> (out: Result<(String, String), CryptoError>)
    ensures
        out is Ok,
        out matches Ok(pair) ==> did_key_of(pair.0@) == Ok::<Seq<char>, CryptoError>(pair.1@),
        out matches Ok(pair) ==> jwk_curve_name(pair.0@) == Some("secp256k1"@),
{
    key_pair(random_secret_jwk())
}

/// Signs `payload` with the secp256k1 secret key written in `jwk`; the result
/// is the fixed-width signature, `r` then `s`.
pub fn sign(jwk: &str, payload: &[u8]) -> (out: Result<Vec<u8>, CryptoError>)
    ensures
        bytes_result(out) == signature_bytes(jwk@, payload@),
{
    if public_point(jwk, true).is_none() {
        return Err(CryptoError::KeyDecoding);
    }
    match sign_bytes(jwk, payload) {
        Some(signature) => Ok(signature),
        None => Err(CryptoError::Signature),
    }
}

/// Signs `payload` with the secp256k1 secret key written in `jwk` and gives the
/// signature in base64url.
pub fn sign_operation(jwk: &str, payload: &[u8]) -> (out: Result<String, CryptoError>)
    ensures
        text_result(out) == signature_text(jwk@, payload@),
{
    match sign(jwk, payload) {
        Ok(signature) => Ok(encode_base64url(&signature)),
        Err(e) => Err(e),
    }
}

/// Checks `signature` over `message` against the secp256k1 public key with SEC1
/// encoding `point`.
pub fn verify(point: &[u8], signature: &[u8], message: &[u8]) -> (out: Result<(), CryptoError>)
    ensures
        out == verification(point@, signature@, message@),
{
    if !point_parses(point) {
        Err(CryptoError::KeyDecoding)
    } else if !verifies(point, signature, message) {
        Err(CryptoError::Signature)
    } else {
        Ok(())
    }
}

} // verus!
