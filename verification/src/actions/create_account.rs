//! Creating an account: the handle to suggest and the recovery key to hand
//! to the data server.

use vstd::prelude::*;
use crate::crypto::{
    did_key_of, did_key_uri, gen_key, jwk_to_did_key, secret_curve, CryptoError, Curve,
};
use crate::text::join;

verus! {

/// Where the recovery key of a new account comes from.
#[derive(Debug, Clone, Copy, PartialEq, Eq, Structural)]
pub enum RecoveryKeySource {
    /// A secret key that the user provides.
    ProvidedJwk,
    /// A fresh P-256 key.
    GenerateP256,
    /// A fresh secp256k1 key.
    GenerateK256,
}

/// The ways in which preparing a new account fails.
#[derive(Debug, Clone, Copy, PartialEq, Eq, Structural)]
pub enum CreateAccountError {
    /// The data server offers no domain for handles.
    NoAvailableDomains,
    /// The number chosen stands for no source of keys.
    InvalidKeyType,
    /// The key could not be decoded or generated.
    Key(CryptoError),
}

/// The recovery key of a new account.
#[derive(Debug, PartialEq, Eq)]
pub struct RecoveryKey {
    /// The secret key to show to the user, where one was generated.
    pub generated_secret: Option<String>,
    /// The `did:key` identifier handed to the data server.
    pub recovery_key: String,
}

/// The source at each position of the menu of key types.
pub open spec fn key_source_at(choice: int) -> Option<RecoveryKeySource> {
    if choice == 0 {
        Some(RecoveryKeySource::ProvidedJwk)
    } else if choice == 1 {
        Some(RecoveryKeySource::GenerateP256)
    } else if choice == 2 {
        Some(RecoveryKeySource::GenerateK256)
    } else {
        None
    }
}

/// The `did:key` identifier of the public key that the secret key written
/// in `jwk` yields, on the curve the secret names.
pub open spec fn recovery_uri(jwk: Seq<char>) -> Result<Seq<char>, CryptoError> {
    match did_key_of(jwk) {
        Ok(public) => Ok("did:key:"@ + public),
        Err(e) => Err(e),
    }
}

/// `key` holds a secret of `curve` and the `did:key` identifier of the
/// public key that the secret yields.
pub open spec fn generated_on(curve: Curve, key: RecoveryKey) -> bool {
    match key.generated_secret {
        None => false,
        Some(secret) => secret_curve(secret@) == Ok::<Curve, CryptoError>(curve) && recovery_uri(
            secret@,
        ) == Ok::<Seq<char>, CryptoError>(key.recovery_key@),
    }
}

/// The source chosen in the menu of key types.
pub fn key_source_of(choice: usize) -> (out: Result<RecoveryKeySource, CreateAccountError>)
    ensures
        match out {
            Ok(source) => key_source_at(choice as int) == Some(source),
            Err(e) => e == CreateAccountError::InvalidKeyType && key_source_at(choice as int)
                is None,
        },
{
    if choice == 0 {
        Ok(RecoveryKeySource::ProvidedJwk)
    } else if choice == 1 {
        Ok(RecoveryKeySource::GenerateP256)
    } else if choice == 2 {
        Ok(RecoveryKeySource::GenerateK256)
    } else {
        Err(CreateAccountError::InvalidKeyType)
    }
}

/// The handle to suggest: a random name followed by the first domain that
/// the data server offers. Without a domain no account can be made.
pub fn suggested_handle(random_name: &str, available_domains: &Vec<String>) -> (out: Result<
    String,
    CreateAccountError,
>)
    ensures
        out is Ok <==> available_domains@.len() > 0,
        out matches Ok(handle) ==> handle@ == random_name@ + available_domains@[0]@,
        out matches Err(e) ==> e == CreateAccountError::NoAvailableDomains,
{
    if available_domains.len() == 0 {
        Err(CreateAccountError::NoAvailableDomains)
    } else {
        Ok(join(random_name, available_domains[0].as_str()))
    }
}

/// The recovery key from a secret that the user provides: the `did:key` of
/// the public key that the secret yields, on the curve the secret names.
pub fn provided_recovery_key(jwk: &str) -> (out: Result<RecoveryKey, CreateAccountError>)
    ensures
        match out {
            Ok(key) => key.generated_secret is None && recovery_uri(jwk@) == Ok::<
                Seq<char>,
                CryptoError,
            >(key.recovery_key@),
            Err(CreateAccountError::Key(e)) => recovery_uri(jwk@) == Err::<Seq<char>, CryptoError>(
                e,
            ),
            Err(_) => false,
        },
{
    match jwk_to_did_key(jwk) {
        Err(e) => Err(CreateAccountError::Key(e)),
        Ok(public) => Ok(
            RecoveryKey { generated_secret: None, recovery_key: did_key_uri(public.as_str()) },
        ),
    }
}

/// A recovery key generated on `curve`: the secret to show to the user,
/// and the `did:key` of the public key that the secret yields. A key
/// always comes.
pub fn generated_recovery_key(curve: Curve) -> (out: Result<RecoveryKey, CreateAccountError>)
    ensures
        out is Ok,
        out matches Ok(key) ==> generated_on(curve, key),
{
    match gen_key(curve) {
        Err(e) => Err(CreateAccountError::Key(e)),
        Ok((secret, public)) => Ok(
            RecoveryKey {
                generated_secret: Some(secret),
                recovery_key: did_key_uri(public.as_str()),
            },
        ),
    }
}

} // verus!
