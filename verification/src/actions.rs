//! The operations a user can ask for, the checks on what they type, and
//! the decisions each operation makes between its prompts and its network
//! calls.

pub mod append_handle;
pub mod create_account;
pub mod domain;
pub mod factory;
pub mod inputs;
pub mod prepare;
