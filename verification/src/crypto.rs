//! Key material on the two supported curves: `did:key` encoding of public
//! keys, checking of signatures, and signing of operations.
//!
//! A secret key travels as the text of a JSON Web Key. A public key travels
//! as a multibase string whose decoded bytes are a two-byte curve prefix
//! followed by the compressed SEC1 point.

use vstd::prelude::*;
use crate::json::{json_with_member, set_member, text_view};
use crate::text::{join, same_text};

pub mod k256;
pub mod p256;

verus! {

/// The ways in which work on keys and signatures fails.
#[derive(Debug, Clone, Copy, PartialEq, Eq, Structural)]
pub enum CryptoError {
    /// The curve is neither P-256 nor secp256k1.
    UnsupportedCurve,
    /// A key could not be decoded, or does not lie on the curve asked for.
    KeyDecoding,
    /// A signature could not be made, or does not verify.
    Signature,
    /// The operation to sign is not a JSON object with a canonical encoding.
    MalformedOperation,
}

/// The two supported curves.
#[derive(Debug, Clone, Copy, PartialEq, Eq, Structural)]
pub enum Curve {
    /// NIST P-256.
    P256,
    /// secp256k1.
    K256,
}

/// The bytes that `multibase::decode` yields for `text`, or `None` where it
/// refuses `text`.
pub uninterp spec fn multibase_decoded(text: Seq<char>) -> Option<Seq<u8>>;

/// The base58btc multibase string that `multibase::encode` makes of `bytes`.
pub uninterp spec fn multibase_base58btc(bytes: Seq<u8>) -> Seq<char>;

/// The unpadded URL-safe base64 text of `bytes`.
pub uninterp spec fn base64url_unpadded(bytes: Seq<u8>) -> Seq<char>;

/// The `crv` member of the JSON Web Key written in `jwk`, or `None` where
/// `jwk` is not the text of an elliptic-curve JSON Web Key.
pub uninterp spec fn jwk_curve_name(jwk: Seq<char>) -> Option<Seq<char>>;

/// The DAG-CBOR encoding of the JSON document written in `document`, or
/// `None` where `document` is not JSON text or has no such encoding.
pub uninterp spec fn dag_cbor_encoding(document: Seq<char>) -> Option<Seq<u8>>;

/// The view of an optional byte string.
pub open spec fn bytes_view(bytes: Option<Vec<u8>>) -> Option<Seq<u8>> {
    match bytes {
        Some(b) => Some(b@),
        None => None,
    }
}

/// The view of a string or the error that came in its place.
pub open spec fn text_result(r: Result<String, CryptoError>) -> Result<Seq<char>, CryptoError> {
    match r {
        Ok(t) => Ok(t@),
        Err(e) => Err(e),
    }
}

/// The view of a byte string or the error that came in its place.
pub open spec fn bytes_result(r: Result<Vec<u8>, CryptoError>) -> Result<Seq<u8>, CryptoError> {
    match r {
        Ok(b) => Ok(b@),
        Err(e) => Err(e),
    }
}

/// The two-byte multicodec prefix of a curve.
pub open spec fn curve_prefix(curve: Curve) -> Seq<u8> {
    match curve {
        Curve::P256 => seq![0x80u8, 0x24u8],
        Curve::K256 => seq![0xe7u8, 0x01u8],
    }
}

/// The curve whose prefix starts `bytes`, if any.
pub open spec fn curve_of_prefix(bytes: Seq<u8>) -> Option<Curve> {
    if bytes.len() >= 2 && bytes[0] == 0xe7u8 && bytes[1] == 0x01u8 {
        Some(Curve::K256)
    } else if bytes.len() >= 2 && bytes[0] == 0x80u8 && bytes[1] == 0x24u8 {
        Some(Curve::P256)
    } else {
        None
    }
}

/// The curve that a JSON Web Key's `crv` member names, if it is supported.
pub open spec fn curve_of_name(name: Seq<char>) -> Option<Curve> {
    if name == "P-256"@ {
        Some(Curve::P256)
    } else if name == "secp256k1"@ {
        Some(Curve::K256)
    } else {
        None
    }
}

/// The curve of the secret key written in `jwk`: `KeyDecoding` where `jwk`
/// is no JSON Web Key, `UnsupportedCurve` where it names another curve.
pub open spec fn secret_curve(jwk: Seq<char>) -> Result<Curve, CryptoError> {
    match jwk_curve_name(jwk) {
        None => Err(CryptoError::KeyDecoding),
        Some(name) => match curve_of_name(name) {
            Some(curve) => Ok(curve),
            None => Err(CryptoError::UnsupportedCurve),
        },
    }
}

/// The multibase form of a public key: the curve's prefix, then the
/// compressed point, in base58btc.
pub open spec fn encoded_public_key(curve: Curve, point: Seq<u8>) -> Seq<char> {
    multibase_base58btc(curve_prefix(curve) + point)
}

/// The multibase public key of the secret key written in `jwk`.
pub open spec fn did_key_of(jwk: Seq<char>) -> Result<Seq<char>, CryptoError> {
    match secret_curve(jwk) {
        Err(e) => Err(e),
        Ok(Curve::P256) => p256::did_key_of(jwk),
        Ok(Curve::K256) => k256::did_key_of(jwk),
    }
}

/// The base64url signature that the secret key written in `jwk` gives to
/// `payload`.
pub open spec fn signature_text(jwk: Seq<char>, payload: Seq<u8>) -> Result<
    Seq<char>,
    CryptoError,
> {
    match secret_curve(jwk) {
        Err(e) => Err(e),
        Ok(Curve::P256) => p256::signature_text(jwk, payload),
        Ok(Curve::K256) => k256::signature_text(jwk, payload),
    }
}

/// What checking `signature` over `content` against the key `multibase_key`
/// comes to.
pub open spec fn validation(multibase_key: Seq<char>, signature: Seq<u8>, content: Seq<u8>)
    -> Result<(), CryptoError> {
    match multibase_decoded(multibase_key) {
        None => Err(CryptoError::KeyDecoding),
        Some(bytes) => match curve_of_prefix(bytes) {
            None => Err(CryptoError::UnsupportedCurve),
            Some(Curve::K256) => k256::verification(bytes.skip(2), signature, content),
            Some(Curve::P256) => p256::verification(bytes.skip(2), signature, content),
        },
    }
}

/// The signed form of the operation written in `operation`: the operation
/// with its `sig` member set to the signature, by the key written in `jwk`,
/// of the operation's DAG-CBOR encoding.
pub open spec fn signed_operation(jwk: Seq<char>, operation: Seq<char>) -> Result<
    Seq<char>,
    CryptoError,
> {
    match dag_cbor_encoding(operation) {
        None => Err(CryptoError::MalformedOperation),
        Some(payload) => match signature_text(jwk, payload) {
            Err(e) => Err(e),
            Ok(signature) => match json_with_member(operation, "sig"@, signature) {
                None => Err(CryptoError::MalformedOperation),
                Some(signed) => Ok(signed),
            },
        },
    }
}

/// Decodes a multibase string. Rests on `multibase::decode`, which reads the
/// base from the first character and decodes the rest in that base; the
/// base it found is dropped.
#[verifier::external_body]
fn decode_multibase(text: &str) -> (bytes: Option<Vec<u8>>)
    ensures
        bytes_view(bytes) == multibase_decoded(text@),
{
    let (_, bytes) = multibase::decode(text).ok()?;
    Some(bytes)
}

/// Encodes bytes as a base58btc multibase string. Rests on
/// `multibase::encode` with `Base::Base58Btc`.
#[verifier::external_body]
pub(crate) fn encode_base58btc(bytes: &Vec<u8>) -> (text: String)
    ensures
        text@ == multibase_base58btc(bytes@),
{
    multibase::encode(multibase::Base::Base58Btc, bytes)
}

/// Encodes bytes as unpadded URL-safe base64. Rests on `Engine::encode` of
/// `base64::engine::general_purpose::URL_SAFE_NO_PAD`.
#[verifier::external_body]
pub(crate) fn encode_base64url(bytes: &Vec<u8>) -> (text: String)
    ensures
        text@ == base64url_unpadded(bytes@),
{
    base64::Engine::encode(&base64::engine::general_purpose::URL_SAFE_NO_PAD, bytes)
}

/// Reads the curve name of a JSON Web Key. Rests on the `FromStr` impl of
/// `elliptic_curve::JwkEcKey`, which parses the text, and on
/// `JwkEcKey::crv`, which hands out the `crv` member.
#[verifier::external_body]
fn curve_name_of(jwk: &str) -> (name: Option<String>)
    ensures
        text_view(name) == jwk_curve_name(jwk@),
{
    let key = jwk.parse::<elliptic_curve::JwkEcKey>().ok()?;
    Some(key.crv().to_string())
}

/// Encodes a JSON document as DAG-CBOR. Rests on `serde_json::from_str`,
/// which parses the text, and on `serde_ipld_dagcbor::to_vec`, which
/// serialises the parsed value.
#[verifier::external_body]
fn encode_dag_cbor(document: &str) -> (bytes: Option<Vec<u8>>)
    ensures
        bytes_view(bytes) == dag_cbor_encoding(document@),
{
    let value: serde_json::Value = serde_json::from_str(document).ok()?;
    serde_ipld_dagcbor::to_vec(&value).ok()
}

impl Curve {
    /// The curve that a JSON Web Key's `crv` member names.
    pub fn from_name(name: &str) -> (curve: Option<Curve>)
        ensures
            curve == curve_of_name(name@),
    {
        if same_text(name, "P-256") {
            Some(Curve::P256)
        } else if same_text(name, "secp256k1") {
            Some(Curve::K256)
        } else {
            None
        }
    }

    /// The curve whose two-byte prefix starts `bytes`.
    pub fn from_prefix(bytes: &Vec<u8>) -> (curve: Option<Curve>)
        ensures
            curve == curve_of_prefix(bytes@),
    {
        if bytes.len() < 2 {
            None
        } else if bytes[0] == 0xe7 && bytes[1] == 0x01 {
            Some(Curve::K256)
        } else if bytes[0] == 0x80 && bytes[1] == 0x24 {
            Some(Curve::P256)
        } else {
            None
        }
    }

    /// The curve of the secret key written in `jwk`.
    pub fn of_secret(jwk: &str) -> (curve: Result<Curve, CryptoError>)
        ensures
            curve == secret_curve(jwk@),
    {
        match curve_name_of(jwk) {
            None => Err(CryptoError::KeyDecoding),
            Some(name) => match Curve::from_name(name.as_str()) {
                Some(curve) => Ok(curve),
                None => Err(CryptoError::UnsupportedCurve),
            },
        }
    }
}

/// Whether `jwk` is the text of an elliptic-curve JSON Web Key, of any
/// curve.
pub fn is_jwk(jwk: &str) -> (out: bool)
    ensures
        out == jwk_curve_name(jwk@) is Some,
{
    curve_name_of(jwk).is_some()
}

/// The `did:key` identifier of a multibase public key.
pub fn did_key_uri(encoded_public_key: &str) -> (uri: String)
    ensures
        uri@ == "did:key:"@ + encoded_public_key@,
{
    join("did:key:", encoded_public_key)
}

/// The prefix alone picks the curve: key bytes that start with a curve's
/// prefix are checked on that curve and on no other, against the point
/// that follows the prefix.
pub proof fn lemma_prefix_picks_the_curve(
    multibase_key: Seq<char>,
    curve: Curve,
    point: Seq<u8>,
    signature: Seq<u8>,
    content: Seq<u8>,
)
    requires
        multibase_decoded(multibase_key) == Some(curve_prefix(curve) + point),
    ensures
        curve_of_prefix(curve_prefix(curve) + point) == Some(curve),
        validation(multibase_key, signature, content) == match curve {
            Curve::P256 => p256::verification(point, signature, content),
            Curve::K256 => k256::verification(point, signature, content),
        },
{
    assert((curve_prefix(curve) + point).skip(2) =~= point);
}

/// A signature that verifies under a key's point validates under the key's
/// multibase form, wherever that form decodes to the curve's prefix and the
/// point.
pub proof fn lemma_verifying_signature_validates(
    multibase_key: Seq<char>,
    curve: Curve,
    point: Seq<u8>,
    signature: Seq<u8>,
    content: Seq<u8>,
)
    requires
        multibase_decoded(multibase_key) == Some(curve_prefix(curve) + point),
        match curve {
            Curve::P256 => p256::verification(point, signature, content) is Ok,
            Curve::K256 => k256::verification(point, signature, content) is Ok,
        },
    ensures
        validation(multibase_key, signature, content) == Ok::<(), CryptoError>(()),
{
    lemma_prefix_picks_the_curve(multibase_key, curve, point, signature, content);
}

/// The names of the two curves differ, so a key names at most one of them.
pub proof fn lemma_curve_names()
    ensures
        curve_of_name("P-256"@) == Some(Curve::P256),
        curve_of_name("secp256k1"@) == Some(Curve::K256),
{
    reveal_strlit("P-256");
    reveal_strlit("secp256k1");
    assert("P-256"@.len() != "secp256k1"@.len());
}

/// A fresh key pair on `curve`: the secret key as JSON Web Key text, and
/// its multibase public key. A pair always comes: the secret names `curve`,
/// and the public key is the one that `jwk_to_did_key` derives from it.
pub fn gen_key(curve: Curve) -> (out: Result<(String, String), CryptoError>)
    ensures
        out is Ok,
        out matches Ok(pair) ==> secret_curve(pair.0@) == Ok::<Curve, CryptoError>(curve),
        out matches Ok(pair) ==> did_key_of(pair.0@) == Ok::<Seq<char>, CryptoError>(pair.1@),
{
    proof {
        lemma_curve_names();
    }
    match curve {
        Curve::P256 => p256::gen_key(),
        Curve::K256 => k256::gen_key(),
    }
}

/// The multibase form of the public key with compressed point `point` on
/// `curve`.
pub fn encode_public_key(curve: Curve, point: &Vec<u8>) -> (text: String)
    ensures
        text@ == encoded_public_key(curve, point@),
{
    let mut full: Vec<u8> = Vec::new();
    match curve {
        Curve::P256 => {
            full.push(0x80);
            full.push(0x24);
        },
        Curve::K256 => {
            full.push(0xe7);
            full.push(0x01);
        },
    }
    assert(full@ =~= curve_prefix(curve));
    full.extend_from_slice(point.as_slice());
    assert(full@ =~= curve_prefix(curve) + point@);
    encode_base58btc(&full)
}

/// The bytes of `bytes` after the first two.
fn after_prefix(bytes: &Vec<u8>) -> (rest: Vec<u8>)
    requires
        bytes.len() >= 2,
    ensures
        rest@ == bytes@.skip(2),
{
    let mut rest: Vec<u8> = Vec::new();
    let mut i: usize = 2;
    while i < bytes.len()
        invariant
            2 <= i <= bytes.len(),
            rest@ == bytes@.subrange(2, i as int),
        decreases bytes.len() - i,
    {
        rest.push(bytes[i]);
        assert(bytes@.subrange(2, i + 1) == bytes@.subrange(2, i as int).push(bytes@[i as int]));
        i += 1;
    }
    assert(bytes@.subrange(2, bytes.len() as int) == bytes@.skip(2));
    rest
}

/// Checks `signature` over `content` against the public key `multibase_key`.
///
/// The key is decoded from its multibase form and its first two bytes pick
/// the curve. `Ok` comes exactly where the key decodes, names a supported
/// curve, holds a point of that curve, and the signature verifies.
pub fn validate(multibase_key: &str, signature: &[u8], content: &[u8]) -> (out: Result<
    (),
    CryptoError,
>)
    ensures
        out == validation(multibase_key@, signature@, content@),
{
    let decoded = match decode_multibase(multibase_key) {
        None => {
            return Err(CryptoError::KeyDecoding);
        },
        Some(bytes) => bytes,
    };
    match Curve::from_prefix(&decoded) {
        None => Err(CryptoError::UnsupportedCurve),
        Some(Curve::K256) => {
            let point = after_prefix(&decoded);
            k256::verify(point.as_slice(), signature, content)
        },
        Some(Curve::P256) => {
            let point = after_prefix(&decoded);
            p256::verify(point.as_slice(), signature, content)
        },
    }
}

/// The multibase public key of the secret key written in `jwk`, on the curve
/// that the key names.
pub fn jwk_to_did_key(jwk: &str) -> (out: Result<String, CryptoError>)
    ensures
        text_result(out) == did_key_of(jwk@),
{
    match Curve::of_secret(jwk) {
        Err(e) => Err(e),
        Ok(Curve::P256) => p256::jwk_to_did_key(jwk),
        Ok(Curve::K256) => k256::jwk_to_did_key(jwk),
    }
}

/// Signs `payload` with the secret key written in `jwk`, on the curve that
/// the key names, and gives the signature in base64url.
pub fn sign_payload(jwk: &str, payload: &[u8]) -> (out: Result<String, CryptoError>)
    ensures
        text_result(out) == signature_text(jwk@, payload@),
{
    match Curve::of_secret(jwk) {
        Err(e) => Err(e),
        Ok(Curve::P256) => p256::sign_operation(jwk, payload),
        Ok(Curve::K256) => k256::sign_operation(jwk, payload),
    }
}

/// The operation with `signature` as its `sig` member.
pub fn attach_signature(operation: &str, signature: &str) -> (out: Result<String, CryptoError>)
    ensures
        text_result(out) == match json_with_member(operation@, "sig"@, signature@) {
            Some(signed) => Ok::<Seq<char>, CryptoError>(signed),
            None => Err(CryptoError::MalformedOperation),
        },
{
    match set_member(operation, "sig", signature) {
        Some(signed) => Ok(signed),
        None => Err(CryptoError::MalformedOperation),
    }
}

/// The canonical bytes of the operation written in `operation`: its
/// DAG-CBOR encoding, the bytes that a signature covers.
pub fn canonical_encoding(operation: &str) -> (out: Result<Vec<u8>, CryptoError>)
    ensures
        bytes_result(out) == match dag_cbor_encoding(operation@) {
            Some(bytes) => Ok::<Seq<u8>, CryptoError>(bytes),
            None => Err(CryptoError::MalformedOperation),
        },
{
    match encode_dag_cbor(operation) {
        Some(bytes) => Ok(bytes),
        None => Err(CryptoError::MalformedOperation),
    }
}

/// Signs an operation: encodes it as DAG-CBOR, signs those bytes with the
/// secret key written in `jwk`, and sets the operation's `sig` member to the
/// signature.
pub fn sign_operation(jwk: &str, operation: &str) -> (out: Result<String, CryptoError>)
    ensures
        text_result(out) == signed_operation(jwk@, operation@),
{
    let payload = match canonical_encoding(operation) {
        Err(e) => {
            return Err(e);
        },
        Ok(bytes) => bytes,
    };
    let signature = match sign_payload(jwk, payload.as_slice()) {
        Err(e) => {
            return Err(e);
        },
        Ok(text) => text,
    };
    attach_signature(operation, signature.as_str())
}

} // verus!
