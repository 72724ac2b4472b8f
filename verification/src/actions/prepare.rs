//! Installing a rotation key: which key to generate, where in the list of
//! rotation keys it goes, and the patch that puts it there.

use vstd::prelude::*;
use crate::actions::inputs::{is_valid_handle, normal_handle, valid_handle};
use crate::crypto::Curve;
use crate::patch::{
    apply, directives_view, patch_outcome, patch_result, patched_by, Directive,
    PatchApplicationError, PatchDirective,
};
use crate::text::join;

verus! {

/// Where a new rotation key goes.
#[derive(Debug, Clone, Copy, PartialEq, Eq, Structural)]
pub enum KeyPosition {
    /// Before all others: the key of highest priority.
    First,
    /// After all others.
    Last,
}

/// The ways in which preparing the installation fails.
#[derive(Debug, Clone, Copy, PartialEq, Eq, Structural)]
pub enum PrepareError {
    /// What was typed is no handle.
    InvalidHandle,
}

/// The request to install a rotation key, its inputs checked.
#[derive(Debug, PartialEq, Eq)]
pub struct ActionPrepare {
    /// The handle of the account, in normal form.
    pub handle: String,
    /// The curve of the key to generate.
    pub key_type: Curve,
    /// Where the key goes.
    pub key_position: KeyPosition,
}

/// The curve at each position of the menu of key types: P-256 first, then
/// secp256k1.
pub open spec fn key_type_at(choice: int) -> Curve {
    if choice == 0 {
        Curve::P256
    } else {
        Curve::K256
    }
}

/// The place at each position of the menu of key positions: first, then
/// last.
pub open spec fn key_position_at(choice: int) -> KeyPosition {
    if choice == 0 {
        KeyPosition::First
    } else {
        KeyPosition::Last
    }
}

/// The JSON pointer at which a key is added: index 0 for the first place,
/// `-` for the last.
pub open spec fn key_path(position: KeyPosition) -> Seq<char> {
    match position {
        KeyPosition::First => "/rotationKeys/0"@,
        KeyPosition::Last => "/rotationKeys/-"@,
    }
}

/// The directive that adds the `did:key` of a public key to the rotation
/// keys.
pub open spec fn rotation_key_directive(position: KeyPosition, encoded_public_key: Seq<char>)
    -> Directive {
    Directive::Add { path: key_path(position), value: "did:key:"@ + encoded_public_key }
}

/// The curve chosen in the menu of key types.
pub fn key_type_of(choice: usize) -> (out: Curve)
    ensures
        out == key_type_at(choice as int),
{
    if choice == 0 {
        Curve::P256
    } else {
        Curve::K256
    }
}

/// The place chosen in the menu of key positions.
pub fn key_position_of(choice: usize) -> (out: KeyPosition)
    ensures
        out == key_position_at(choice as int),
{
    if choice == 0 {
        KeyPosition::First
    } else {
        KeyPosition::Last
    }
}

/// The patch that adds a rotation key: one directive.
pub fn rotation_key_patch(position: KeyPosition, encoded_public_key: &str) -> (out: Vec<
    PatchDirective,
>)
    ensures
        directives_view(out@) == seq![rotation_key_directive(position, encoded_public_key@)],
{
    let path = match position {
        KeyPosition::First => "/rotationKeys/0".to_owned(),
        KeyPosition::Last => "/rotationKeys/-".to_owned(),
    };
    let mut out: Vec<PatchDirective> = Vec::new();
    out.push(PatchDirective::Add { path, value: join("did:key:", encoded_public_key) });
    assert(directives_view(out@) =~= seq![rotation_key_directive(position, encoded_public_key@)]);
    out
}

impl ActionPrepare {
    /// Checks what the user chose: the handle of the account, and the
    /// positions picked in the menus of key types and key positions.
    pub fn new(handle_input: &str, key_type: usize, key_position: usize) -> (out: Result<
        ActionPrepare,
        PrepareError,
    >)
        ensures
            out is Ok <==> valid_handle(handle_input@),
            out matches Ok(request) ==> {
                &&& request.handle@ == normal_handle(handle_input@)
                &&& request.key_type == key_type_at(key_type as int)
                &&& request.key_position == key_position_at(key_position as int)
            },
            out matches Err(e) ==> e == PrepareError::InvalidHandle,
    {
        match is_valid_handle(handle_input) {
            None => Err(PrepareError::InvalidHandle),
            Some(handle) => Ok(
                ActionPrepare {
                    handle,
                    key_type: key_type_of(key_type),
                    key_position: key_position_of(key_position),
                },
            ),
        }
    }

    /// The DID's document data with the `did:key` of `encoded_public_key`
    /// among its rotation keys, at the place the request names.
    pub fn run(&self, did_doc_data: &str, encoded_public_key: &str) -> (out: Result<
        String,
        PatchApplicationError,
    >)
        ensures
            patch_outcome(
                did_doc_data@,
                seq![rotation_key_directive(self.key_position, encoded_public_key@)],
                patch_result(out),
            ),
            out is Ok <==> patched_by(
                did_doc_data@,
                seq![rotation_key_directive(self.key_position, encoded_public_key@)],
            ) is Some,
    {
        let directives = rotation_key_patch(self.key_position, encoded_public_key);
        apply(did_doc_data, &directives)
    }
}

} // verus!
