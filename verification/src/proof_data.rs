//! The proof records that the operations of the proof program take.
//!
//! Every verify operation has one record type of its own. A record is plain
//! bytes of a size fixed by its type: the public context that the proof
//! speaks of, followed by the proof. What the bytes mean is the business of
//! the proof systems, which make and check the records; this crate carries
//! them and never looks inside.
use vstd::prelude::*;

verus! {

/// Size of a zero-balance record: a public key of 32 bytes and a ciphertext
/// of 64, then a proof of 96.
pub const ZERO_BALANCE_PROOF_DATA_LEN: usize = 192;

/// Size of a withdraw record: a public key of 32 bytes and the final
/// ciphertext of 64, then a proof of 896.
pub const WITHDRAW_DATA_LEN: usize = 992;

/// Size of a ciphertext-ciphertext equality record: two public keys of 32
/// bytes and two ciphertexts of 64, then a proof of 224.
pub const CIPHERTEXT_CIPHERTEXT_EQUALITY_PROOF_DATA_LEN: usize = 416;

/// Size of a transfer record: a context of 416 bytes, then a proof of 1120.
pub const TRANSFER_DATA_LEN: usize = 1536;

/// Size of a transfer-with-fee record: a context of 650 bytes, then a proof
/// of 1632.
pub const TRANSFER_WITH_FEE_DATA_LEN: usize = 2282;

/// Size of a public-key validity record: a public key of 32 bytes, then a
/// proof of 64.
pub const PUBKEY_VALIDITY_DATA_LEN: usize = 96;

/// The record of the `VerifyZeroBalance` operation.
#[derive(Clone, Copy, Debug, PartialEq, Eq)]
pub struct ZeroBalanceProofData(pub [u8; ZERO_BALANCE_PROOF_DATA_LEN]);

/// The record of the `VerifyWithdraw` operation.
#[derive(Clone, Copy, Debug, PartialEq, Eq)]
pub struct WithdrawData(pub [u8; WITHDRAW_DATA_LEN]);

/// The record of the `VerifyCiphertextCiphertextEquality` operation.
#[derive(Clone, Copy, Debug, PartialEq, Eq)]
pub struct CiphertextCiphertextEqualityProofData(
    pub [u8; CIPHERTEXT_CIPHERTEXT_EQUALITY_PROOF_DATA_LEN],
);

/// The record of the `VerifyTransfer` operation.
#[derive(Clone, Copy, Debug, PartialEq, Eq)]
pub struct TransferData(pub [u8; TRANSFER_DATA_LEN]);

/// The record of the `VerifyTransferWithFee` operation.
#[derive(Clone, Copy, Debug, PartialEq, Eq)]
pub struct TransferWithFeeData(pub [u8; TRANSFER_WITH_FEE_DATA_LEN]);

/// The record of the `VerifyPubkeyValidity` operation.
#[derive(Clone, Copy, Debug, PartialEq, Eq)]
pub struct PubkeyValidityData(pub [u8; PUBKEY_VALIDITY_DATA_LEN]);

impl View for ZeroBalanceProofData {
    type V = Seq<u8>;

    open spec fn view(&self) -> Seq<u8> {
        self.0@
    }
}

impl View for WithdrawData {
    type V = Seq<u8>;

    open spec fn view(&self) -> Seq<u8> {
        self.0@
    }
}

impl View for CiphertextCiphertextEqualityProofData {
    type V = Seq<u8>;

    open spec fn view(&self) -> Seq<u8> {
        self.0@
    }
}

impl View for TransferData {
    type V = Seq<u8>;

    open spec fn view(&self) -> Seq<u8> {
        self.0@
    }
}

impl View for TransferWithFeeData {
    type V = Seq<u8>;

    open spec fn view(&self) -> Seq<u8> {
        self.0@
    }
}

impl View for PubkeyValidityData {
    type V = Seq<u8>;

    open spec fn view(&self) -> Seq<u8> {
        self.0@
    }
}

} // verus!
