//! The client-facing operations of the vault access protocol.
//!
//! Each operation checks the fields of its request before it turns to the
//! storage, and answers with the least of the record that its caller may
//! see. No operation answers with the authentication key.

pub mod auth;
pub mod get_crypto_params;
pub mod get_salt;
pub mod get_vault;
pub mod register;
