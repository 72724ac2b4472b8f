//! Control of a DID-PLC identity: the signed, append-only chain of
//! operations that says which keys and services speak for a DID.
//!
//! - [`resolve`] reconciles a handle and a DID into one verified identity,
//!   one lookup at a time.
//! - [`crypto`] encodes public keys as `did:key`, signs operations and
//!   checks signatures, on P-256 and secp256k1.
//! - [`patch`] applies patch directives to a JSON document, in order.
//! - [`chain`] builds the next signed operation on the tip of a DID's
//!   audit log; [`plc`] finds that tip and reads directory documents.
//! - [`actions`] holds the checks on what a user types and the decisions
//!   of each operation; [`xrpc`] the requests to a personal data server.
//!
//! The library makes no network call and touches no file. Documents are
//! JSON text, secret keys are JSON Web Key text, and whoever calls the
//! library fetches and sends them.

pub mod actions;
pub mod chain;
pub mod crypto;
pub mod json;
pub mod patch;
pub mod plc;
pub mod resolve;
pub mod text;
pub mod xrpc;
