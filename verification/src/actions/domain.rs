//! The closed set of operations.

use vstd::prelude::*;

verus! {

/// An operation on an identity.
#[derive(Debug, Clone, Copy, PartialEq, Eq, Structural)]
pub enum TandemAction {
    /// Generate a rotation key and install it in the DID's document.
    Prepare,
    /// Create an account on a data server.
    CreateAccount,
    /// Move the identity to another data server.
    Migrate,
    /// Append a handle to the DID's document.
    AppendHandle,
}

/// The ways in which choosing an operation fails.
#[derive(Debug, Clone, Copy, PartialEq, Eq, Structural)]
pub enum ActionError {
    /// The number chosen stands for no operation.
    UnsupportedOperation,
}

} // verus!
