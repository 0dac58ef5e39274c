//! A verified core for a zero-knowledge password-vault server.
//!
//! The server never sees a user's master secret. It keeps, per user, a
//! derived authentication key, the key-derivation parameters and an opaque
//! encrypted vault, and decides which of these a caller may see.

pub mod endpoints;
pub mod entropy;
pub mod errors;
pub mod laws;
pub mod models;
pub mod store;
pub mod text;
