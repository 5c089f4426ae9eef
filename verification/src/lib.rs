//! Client-side building blocks for confidential token balances.
//!
//! Two independent parts make up the crate:
//!
//! * [`encryption::auth_encryption`] stores a 64-bit balance under an
//!   authenticated cipher, derives the 16-byte key from a signature, a seed or
//!   a seed phrase, and fixes the 36-byte wire form of a ciphertext;
//! * [`zk_token_proof_instruction`] lays out the instructions that ask the
//!   proof program to check a zero-knowledge proof, and reads them back; the
//!   records that the instructions carry are in [`proof_data`].
//!
//! Every function states what it returns as a contract over the byte
//! sequences involved, and Verus proves the body against it. The few calls
//! into other crates sit in [`encryption::primitives`],
//! [`encryption::encoding`] and [`pod`], each behind a contract that is
//! taken on trust and says so.
pub mod encryption;
pub mod instruction;
pub mod pod;
pub mod proof_data;
pub mod pubkey;
pub mod zk_token_proof_instruction;
pub mod zk_token_proof_program;
