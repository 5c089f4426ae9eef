//! Encryption of balances.
pub mod auth_encryption;
pub mod encoding;
pub mod primitives;
