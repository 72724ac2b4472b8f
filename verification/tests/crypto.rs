use base64::Engine;
use ecdsa::signature::Signer;
use elliptic_curve::sec1::ToEncodedPoint;
use tandem::crypto::{
    attach_signature, canonical_encoding, jwk_to_did_key, k256, p256, sign_operation,
    sign_payload, validate, CryptoError, Curve,
};

const P256_JWK: &str = r#"{"kty":"EC","crv":"P-256","x":"gI0GAILBdu7T53akrFmMyGcsF3n5dO7MmwNBHKW5SV0","y":"SLW_xSffzlPWrHEVI30DHM_4egVwt3NQqeUD7nMFpps","d":"0_NxaRPUMQoAJt50Gz8YiTr8gRTwyEaCumd-MToTmIo"}"#;

const OPERATION: &str = r#"{"type":"plc_operation","prev":null,"alsoKnownAs":["at://alice.example"],"rotationKeys":["did:key:zQ3shP5TBe1sQfSttXty15FAEHV1DZgcxRZNxvEWnPfLFwLxJ"],"services":{"atproto_pds":{"type":"AtprotoPersonalDataServer","endpoint":"https://pds.example"}},"verificationMethods":{}}"#;

fn expected_p256_did_key(jwk: &str) -> String {
    let secret = ::p256::SecretKey::from_jwk_str(jwk).unwrap();
    let point = secret.public_key().to_encoded_point(true);
    let full = [&[0x80, 0x24], point.as_bytes()].concat();
    multibase::encode(multibase::Base::Base58Btc, full)
}

fn expected_k256_did_key(jwk: &str) -> String {
    let secret = ::k256::SecretKey::from_jwk_str(jwk).unwrap();
    let point = secret.public_key().to_encoded_point(true);
    let full = [&[0xe7, 0x01], point.as_bytes()].concat();
    multibase::encode(multibase::Base::Base58Btc, full)
}

fn signature_of(signed: &str) -> Vec<u8> {
    let value: serde_json::Value = serde_json::from_str(signed).unwrap();
    let text = value.get("sig").unwrap().as_str().unwrap().to_string();
    base64::engine::general_purpose::URL_SAFE_NO_PAD.decode(text).unwrap()
}

#[test]
fn test_validate_p256() {
    let (secret_jwk, encoded_public_key) = p256::gen_key().unwrap();

    let secret_key = ::p256::SecretKey::from_jwk_str(&secret_jwk).unwrap();

    let now = chrono::Utc::now();
    let content = format!("hello world {}", now);

    let signing_key: ::p256::ecdsa::SigningKey = ::p256::ecdsa::SigningKey::from(secret_key);

    let signature: ::p256::ecdsa::Signature = signing_key.try_sign(content.as_bytes()).unwrap();

    assert_eq!(
        validate(&encoded_public_key, &signature.to_bytes(), content.as_bytes()),
        Ok(())
    );
    assert_eq!(p256::sign(&secret_jwk, content.as_bytes()), Ok(signature.to_bytes().to_vec()));
}

#[test]
fn p256_did_key_of_a_known_secret() {
    let key = p256::jwk_to_did_key(P256_JWK).unwrap();
    assert_eq!(key, expected_p256_did_key(P256_JWK));
    assert!(key.starts_with("zDn"));
    let (base, bytes) = multibase::decode(&key).unwrap();
    assert_eq!(base, multibase::Base::Base58Btc);
    assert_eq!(bytes.len(), 35);
    assert_eq!(&bytes[..2], &[0x80, 0x24]);
    assert_eq!(jwk_to_did_key(P256_JWK), Ok(key));
}

#[test]
fn p256_generated_pair_round_trips() {
    let (secret, public) = p256::gen_key().unwrap();
    assert_eq!(p256::jwk_to_did_key(&secret), Ok(public.clone()));
    assert_eq!(jwk_to_did_key(&secret), Ok(public.clone()));
    assert_eq!(public, expected_p256_did_key(&secret));
    assert_eq!(Curve::of_secret(&secret), Ok(Curve::P256));
    let (_, bytes) = multibase::decode(&public).unwrap();
    assert_eq!(&bytes[..2], &[0x80, 0x24]);
    assert_eq!(bytes.len(), 35);
}

#[test]
fn k256_generated_pair_round_trips() {
    let (secret, public) = k256::gen_key().unwrap();
    assert_eq!(k256::jwk_to_did_key(&secret), Ok(public.clone()));
    assert_eq!(jwk_to_did_key(&secret), Ok(public.clone()));
    assert_eq!(public, expected_k256_did_key(&secret));
    assert_eq!(Curve::of_secret(&secret), Ok(Curve::K256));
    assert!(public.starts_with("zQ3s"));
    let (_, bytes) = multibase::decode(&public).unwrap();
    assert_eq!(&bytes[..2], &[0xe7, 0x01]);
    assert_eq!(bytes.len(), 35);
}

#[test]
fn generation_always_gives_a_pair() {
    for curve in [Curve::P256, Curve::K256] {
        for _ in 0..20 {
            let (secret, public) = tandem::crypto::gen_key(curve).unwrap();
            assert_eq!(Curve::of_secret(&secret), Ok(curve));
            assert_eq!(jwk_to_did_key(&secret), Ok(public.clone()));
            assert!(public.starts_with('z'));
            assert!(!public.starts_with("did:key:"));
            let (base, bytes) = multibase::decode(&public).unwrap();
            assert_eq!(base, multibase::Base::Base58Btc);
            assert_eq!(bytes.len(), 35);
            let prefix: [u8; 2] = match curve {
                Curve::P256 => [0x80, 0x24],
                Curve::K256 => [0xe7, 0x01],
            };
            assert_eq!(&bytes[..2], &prefix);
            assert!(bytes[2] == 0x02 || bytes[2] == 0x03);
        }
    }
}

#[test]
fn generated_keys_differ() {
    let (a, _) = p256::gen_key().unwrap();
    let (b, _) = p256::gen_key().unwrap();
    assert_ne!(a, b);
}

#[test]
fn key_pair_keeps_the_secret() {
    let (secret, public) = p256::key_pair(P256_JWK.to_string()).unwrap();
    assert_eq!(secret, P256_JWK);
    assert_eq!(public, expected_p256_did_key(P256_JWK));
    assert_eq!(p256::key_pair("not a key".to_string()), Err(CryptoError::KeyDecoding));
    assert_eq!(k256::key_pair(P256_JWK.to_string()), Err(CryptoError::KeyDecoding));
}

#[test]
fn signatures_verify_for_several_payloads() {
    let (p_secret, p_public) = p256::gen_key().unwrap();
    let (k_secret, k_public) = k256::gen_key().unwrap();
    let payloads: Vec<Vec<u8>> = vec![
        Vec::new(),
        b"hello world".to_vec(),
        vec![0u8, 255, 128, 7, 0, 0],
        (0..=255u8).collect(),
    ];
    for payload in &payloads {
        let p_sig = p256::sign(&p_secret, payload).unwrap();
        assert_eq!(p_sig.len(), 64);
        assert_eq!(validate(&p_public, &p_sig, payload), Ok(()));
        let k_sig = k256::sign(&k_secret, payload).unwrap();
        assert_eq!(k_sig.len(), 64);
        assert_eq!(validate(&k_public, &k_sig, payload), Ok(()));
    }
}

#[test]
fn signature_over_other_content_is_rejected() {
    let (secret, public) = p256::gen_key().unwrap();
    let signature = p256::sign(&secret, b"hello world").unwrap();
    assert_eq!(validate(&public, &signature, b"hello world"), Ok(()));
    assert_eq!(validate(&public, &signature, b"hello worle"), Err(CryptoError::Signature));
    let mut broken = signature.clone();
    broken[10] ^= 1;
    assert_eq!(validate(&public, &broken, b"hello world"), Err(CryptoError::Signature));
    assert_eq!(validate(&public, &signature[..63], b"hello world"), Err(CryptoError::Signature));
    assert_eq!(validate(&public, &[], b"hello world"), Err(CryptoError::Signature));
}

#[test]
fn signatures_do_not_cross_curves() {
    let (p_secret, p_public) = p256::gen_key().unwrap();
    let (k_secret, k_public) = k256::gen_key().unwrap();
    let message = b"curve discrimination";
    let p_sig = p256::sign(&p_secret, message).unwrap();
    let k_sig = k256::sign(&k_secret, message).unwrap();
    assert!(validate(&k_public, &p_sig, message).is_err());
    assert!(validate(&p_public, &k_sig, message).is_err());

    let (_, p_bytes) = multibase::decode(&p_public).unwrap();
    let relabelled = [&[0xe7, 0x01], &p_bytes[2..]].concat();
    let relabelled = multibase::encode(multibase::Base::Base58Btc, relabelled);
    assert!(validate(&relabelled, &p_sig, message).is_err());
}

#[test]
fn signing_with_the_wrong_curve_module_is_a_key_error() {
    let (k_secret, _) = k256::gen_key().unwrap();
    assert_eq!(p256::sign(&k_secret, b"x"), Err(CryptoError::KeyDecoding));
    assert_eq!(p256::sign_operation(&k_secret, b"x"), Err(CryptoError::KeyDecoding));
    assert_eq!(p256::jwk_to_did_key(&k_secret), Err(CryptoError::KeyDecoding));
    assert_eq!(k256::sign(P256_JWK, b"x"), Err(CryptoError::KeyDecoding));
    assert_eq!(k256::jwk_to_did_key(P256_JWK), Err(CryptoError::KeyDecoding));
}

#[test]
fn validate_rejects_unknown_prefixes_and_bad_keys() {
    let sig = [1u8; 64];
    let other = multibase::encode(multibase::Base::Base58Btc, [0xed, 0x01, 1, 2, 3]);
    assert_eq!(validate(&other, &sig, b"m"), Err(CryptoError::UnsupportedCurve));
    let short = multibase::encode(multibase::Base::Base58Btc, [0x80]);
    assert_eq!(validate(&short, &sig, b"m"), Err(CryptoError::UnsupportedCurve));
    assert_eq!(validate("z", &sig, b"m"), Err(CryptoError::UnsupportedCurve));
    assert_eq!(validate("", &sig, b"m"), Err(CryptoError::KeyDecoding));
    assert_eq!(validate("!nonsense", &sig, b"m"), Err(CryptoError::KeyDecoding));
    assert_eq!(validate("z0OIl", &sig, b"m"), Err(CryptoError::KeyDecoding));
    let no_point = multibase::encode(multibase::Base::Base58Btc, [0x80, 0x24, 9, 9, 9]);
    assert_eq!(validate(&no_point, &sig, b"m"), Err(CryptoError::KeyDecoding));
    let no_point = multibase::encode(multibase::Base::Base58Btc, [0xe7, 0x01]);
    assert_eq!(validate(&no_point, &sig, b"m"), Err(CryptoError::KeyDecoding));
}

#[test]
fn validate_accepts_other_multibase_bases() {
    let (secret, public) = p256::gen_key().unwrap();
    let signature = p256::sign(&secret, b"payload").unwrap();
    let (_, bytes) = multibase::decode(&public).unwrap();
    let hex = multibase::encode(multibase::Base::Base16Lower, bytes);
    assert_eq!(validate(&hex, &signature, b"payload"), Ok(()));
}

#[test]
fn curves_by_name_and_prefix() {
    assert_eq!(Curve::from_name("P-256"), Some(Curve::P256));
    assert_eq!(Curve::from_name("secp256k1"), Some(Curve::K256));
    assert_eq!(Curve::from_name("P-384"), None);
    assert_eq!(Curve::from_name("p-256"), None);
    assert_eq!(Curve::from_name(""), None);
    assert_eq!(Curve::from_prefix(&vec![0x80, 0x24]), Some(Curve::P256));
    assert_eq!(Curve::from_prefix(&vec![0xe7, 0x01, 5]), Some(Curve::K256));
    assert_eq!(Curve::from_prefix(&vec![0x80, 0x01]), None);
    assert_eq!(Curve::from_prefix(&vec![0xe7, 0x24]), None);
    assert_eq!(Curve::from_prefix(&vec![0x80]), None);
    assert_eq!(Curve::from_prefix(&vec![]), None);
}

#[test]
fn secrets_of_other_kinds() {
    let p384 = r#"{"kty":"EC","crv":"P-384","x":"AAAA","y":"AAAA","d":"AAAA"}"#;
    assert_eq!(Curve::of_secret(p384), Err(CryptoError::UnsupportedCurve));
    assert_eq!(jwk_to_did_key(p384), Err(CryptoError::UnsupportedCurve));
    assert_eq!(sign_payload(p384, b"x"), Err(CryptoError::UnsupportedCurve));
    assert_eq!(sign_operation(p384, OPERATION), Err(CryptoError::UnsupportedCurve));
    assert_eq!(Curve::of_secret("{}"), Err(CryptoError::KeyDecoding));
    assert_eq!(jwk_to_did_key("junk"), Err(CryptoError::KeyDecoding));
    let public_only = r#"{"kty":"EC","crv":"P-256","x":"gI0GAILBdu7T53akrFmMyGcsF3n5dO7MmwNBHKW5SV0","y":"SLW_xSffzlPWrHEVI30DHM_4egVwt3NQqeUD7nMFpps"}"#;
    assert_eq!(jwk_to_did_key(public_only), Err(CryptoError::KeyDecoding));
    assert_eq!(sign_payload(public_only, b"x"), Err(CryptoError::KeyDecoding));
}

#[test]
fn canonical_encoding_is_dag_cbor() {
    assert_eq!(canonical_encoding(r#"{"a":1}"#), Ok(vec![0xa1, 0x61, 0x61, 0x01]));
    assert_eq!(
        canonical_encoding(r#"{"bb":null,"a":"x"}"#),
        Ok(vec![0xa2, 0x61, 0x61, 0x61, 0x78, 0x62, 0x62, 0x62, 0xf6])
    );
    assert_eq!(canonical_encoding(r#" { "a" : 1 } "#), canonical_encoding(r#"{"a":1}"#));
    assert_eq!(canonical_encoding("{"), Err(CryptoError::MalformedOperation));
    assert_eq!(canonical_encoding(""), Err(CryptoError::MalformedOperation));
    let value: serde_json::Value = serde_json::from_str(OPERATION).unwrap();
    assert_eq!(canonical_encoding(OPERATION), Ok(serde_ipld_dagcbor::to_vec(&value).unwrap()));
}

#[test]
fn signed_operation_carries_a_verifying_signature() {
    let (secret, public) = p256::gen_key().unwrap();
    let signed = sign_operation(&secret, OPERATION).unwrap();
    let mut value: serde_json::Value = serde_json::from_str(&signed).unwrap();
    let sig_text = value.get("sig").unwrap().as_str().unwrap().to_string();
    assert_eq!(sig_text.len(), 86);
    assert!(!sig_text.contains('='));
    let payload = canonical_encoding(OPERATION).unwrap();
    assert_eq!(validate(&public, &signature_of(&signed), &payload), Ok(()));
    assert_eq!(sign_payload(&secret, &payload), Ok(sig_text));

    value.as_object_mut().unwrap().remove("sig");
    let unsigned: serde_json::Value = serde_json::from_str(OPERATION).unwrap();
    assert_eq!(value, unsigned);
}

#[test]
fn signing_twice_gives_signatures_that_both_verify() {
    let (secret, public) = k256::gen_key().unwrap();
    let first = sign_operation(&secret, OPERATION).unwrap();
    let second = sign_operation(&secret, OPERATION).unwrap();
    let payload_a = canonical_encoding(OPERATION).unwrap();
    let payload_b = canonical_encoding(OPERATION).unwrap();
    assert_eq!(payload_a, payload_b);
    assert_eq!(validate(&public, &signature_of(&first), &payload_a), Ok(()));
    assert_eq!(validate(&public, &signature_of(&second), &payload_b), Ok(()));
}

#[test]
fn signing_replaces_an_earlier_signature() {
    let with_sig = r#"{"prev":null,"sig":"old"}"#;
    let signed = sign_operation(P256_JWK, with_sig).unwrap();
    let value: serde_json::Value = serde_json::from_str(&signed).unwrap();
    assert_ne!(value.get("sig").unwrap().as_str().unwrap(), "old");
    assert_eq!(value.as_object().unwrap().len(), 2);
}

#[test]
fn only_json_objects_can_be_signed() {
    assert_eq!(sign_operation(P256_JWK, "[1,2]"), Err(CryptoError::MalformedOperation));
    assert_eq!(sign_operation(P256_JWK, "\"text\""), Err(CryptoError::MalformedOperation));
    assert_eq!(sign_operation(P256_JWK, "not json"), Err(CryptoError::MalformedOperation));
    assert_eq!(attach_signature("[]", "abc"), Err(CryptoError::MalformedOperation));
    assert_eq!(attach_signature("{}", "abc"), Ok(r#"{"sig":"abc"}"#.to_string()));
    assert_eq!(
        attach_signature(r#"{"prev":null}"#, "a\"b"),
        Ok(r#"{"prev":null,"sig":"a\"b"}"#.to_string())
    );
}

#[test]
fn verify_on_raw_points() {
    let (secret, public) = k256::gen_key().unwrap();
    let (_, bytes) = multibase::decode(&public).unwrap();
    let signature = k256::sign(&secret, b"raw").unwrap();
    assert_eq!(k256::verify(&bytes[2..], &signature, b"raw"), Ok(()));
    assert_eq!(k256::verify(&bytes[2..], &signature, b"war"), Err(CryptoError::Signature));
    assert_eq!(k256::verify(&bytes, &signature, b"raw"), Err(CryptoError::KeyDecoding));
    assert_eq!(p256::verify(&[], &signature, b"raw"), Err(CryptoError::KeyDecoding));
}
