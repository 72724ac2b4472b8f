//! Appending a handle to a DID's document.

use vstd::prelude::*;
use crate::actions::inputs::{
    is_valid_did_plc, is_valid_handle, normal_handle, strip_did_prefix, valid_did_plc,
    valid_handle,
};
use crate::chain::{next_operation, next_operation_outcome, ChainError, NextOperation};
use crate::crypto::{did_key_of, is_jwk, jwk_curve_name, jwk_to_did_key, CryptoError};
use crate::patch::{directives_view, Directive, PatchDirective};
use crate::plc::AuditEntry;
use crate::text::join;

verus! {

/// The ways in which a request to append a handle is refused.
#[derive(Debug, Clone, Copy, PartialEq, Eq, Structural)]
pub enum AppendHandleError {
    /// What was typed is no `did:plc` identifier.
    InvalidDid,
    /// What was typed is no handle.
    InvalidHandle,
    /// The key is no JSON Web Key, names a curve that is not supported, or
    /// yields no public key on the curve it names.
    Key(CryptoError),
}

/// The request to append a handle, its inputs checked.
#[derive(Debug, PartialEq, Eq)]
pub struct ActionAppendHandle {
    did: String,
    jwk: String,
    new_handle: String,
    did_key: String,
}

/// The mathematical form of a checked request.
pub struct AppendHandleRequest {
    pub did: Seq<char>,
    pub jwk: Seq<char>,
    pub new_handle: Seq<char>,
    pub did_key: Seq<char>,
}

impl View for ActionAppendHandle {
    type V = AppendHandleRequest;

    closed spec fn view(&self) -> AppendHandleRequest {
        AppendHandleRequest {
            did: self.did@,
            jwk: self.jwk@,
            new_handle: self.new_handle@,
            did_key: self.did_key@,
        }
    }
}

/// The change that appends a handle: `at://` and the handle go to the end
/// of `alsoKnownAs`.
pub open spec fn handle_change(new_handle: Seq<char>) -> Seq<Directive> {
    seq![Directive::Add { path: "/alsoKnownAs/-"@, value: "at://"@ + new_handle }]
}

/// What checking the inputs of the request comes to. The DID is checked
/// first, then the key, then the handle; last, the key must yield a public
/// key on the curve it names.
pub open spec fn checked_request(did_input: Seq<char>, jwk: Seq<char>, handle_input: Seq<char>)
    -> Result<AppendHandleRequest, AppendHandleError> {
    if !valid_did_plc(did_input) {
        Err(AppendHandleError::InvalidDid)
    } else if jwk_curve_name(jwk) is None {
        Err(AppendHandleError::Key(CryptoError::KeyDecoding))
    } else if !valid_handle(handle_input) {
        Err(AppendHandleError::InvalidHandle)
    } else {
        match did_key_of(jwk) {
            Err(e) => Err(AppendHandleError::Key(e)),
            Ok(did_key) => Ok(
                AppendHandleRequest {
                    did: strip_did_prefix(did_input),
                    jwk,
                    new_handle: normal_handle(handle_input),
                    did_key,
                },
            ),
        }
    }
}

/// The directives of `handle_change`.
pub fn append_handle_directives(new_handle: &str) -> (out: Vec<PatchDirective>)
    ensures
        directives_view(out@) == handle_change(new_handle@),
{
    let mut out: Vec<PatchDirective> = Vec::new();
    out.push(
        PatchDirective::Add {
            path: "/alsoKnownAs/-".to_owned(),
            value: join("at://", new_handle),
        },
    );
    assert(directives_view(out@) =~= handle_change(new_handle@));
    out
}

impl ActionAppendHandle {
    /// Checks what the user typed: a `did:plc` identifier, a secret key as
    /// JSON Web Key text, and the handle to append. The request keeps the
    /// DID without its `at://`, the handle in normal form, and the public
    /// key derived from the secret, to be shown before any network call.
    pub fn new(did_input: &str, jwk: &str, handle_input: &str) -> (out: Result<
        ActionAppendHandle,
        AppendHandleError,
    >)
        ensures
            match out {
                Ok(request) => checked_request(did_input@, jwk@, handle_input@) == Ok::<
                    AppendHandleRequest,
                    AppendHandleError,
                >(request@),
                Err(e) => checked_request(did_input@, jwk@, handle_input@) == Err::<
                    AppendHandleRequest,
                    AppendHandleError,
                >(e),
            },
    {
        let did = match is_valid_did_plc(did_input) {
            None => {
                return Err(AppendHandleError::InvalidDid);
            },
            Some(did) => did,
        };
        if !is_jwk(jwk) {
            return Err(AppendHandleError::Key(CryptoError::KeyDecoding));
        }
        let new_handle = match is_valid_handle(handle_input) {
            None => {
                return Err(AppendHandleError::InvalidHandle);
            },
            Some(handle) => handle,
        };
        match jwk_to_did_key(jwk) {
            Err(e) => Err(AppendHandleError::Key(e)),
            Ok(did_key) => Ok(ActionAppendHandle { did, jwk: jwk.to_owned(), new_handle, did_key }),
        }
    }

    /// The DID whose document gets the handle.
    pub fn did(&self) -> (out: &String)
        ensures
            out@ == self@.did,
    {
        &self.did
    }

    /// The secret key that signs the operation.
    pub fn jwk(&self) -> (out: &String)
        ensures
            out@ == self@.jwk,
    {
        &self.jwk
    }

    /// The handle to append, in normal form.
    pub fn new_handle(&self) -> (out: &String)
        ensures
            out@ == self@.new_handle,
    {
        &self.new_handle
    }

    /// The multibase public key derived from the secret key.
    pub fn did_key(&self) -> (out: &String)
        ensures
            out@ == self@.did_key,
    {
        &self.did_key
    }

    /// Builds and signs the operation that follows the tip of `log`: the
    /// tip's operation with the handle appended, linked to the tip, and
    /// signed with the request's key.
    pub fn run(&self, log: &Vec<AuditEntry>) -> (out: Result<NextOperation, ChainError>)
        ensures
            next_operation_outcome(self@.jwk, log@, handle_change(self@.new_handle), out),
    {
        let changes = append_handle_directives(self.new_handle.as_str());
        next_operation(self.jwk.as_str(), log, changes)
    }
}

} // verus!
