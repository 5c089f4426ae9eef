//! Instructions understood by the proof program.
//!
//! On the wire an instruction's data is one byte that names the operation,
//! followed by the raw bytes of the operation's proof record, with no length
//! in between: the record's size is fixed by its type. The accounts that go
//! with an operation are fixed too.
//!
//! Each verify operation has its own record type, in [`crate::proof_data`],
//! and one function here that builds its instruction: that function is what
//! ties the operation's byte to the record's type. The encoder and the
//! decoder beneath take a record of any size, as `N` plain bytes, see
//! [`crate::pod`].
use crate::instruction::{AccountMeta, Instruction};
use crate::pod;
use crate::proof_data::{
    CiphertextCiphertextEqualityProofData, PubkeyValidityData, TransferData, TransferWithFeeData,
    WithdrawData, ZeroBalanceProofData, CIPHERTEXT_CIPHERTEXT_EQUALITY_PROOF_DATA_LEN,
    PUBKEY_VALIDITY_DATA_LEN, TRANSFER_DATA_LEN, TRANSFER_WITH_FEE_DATA_LEN, WITHDRAW_DATA_LEN,
    ZERO_BALANCE_PROOF_DATA_LEN,
};
use crate::pubkey::Pubkey;
use crate::zk_token_proof_program;
use vstd::prelude::*;
use vstd::slice::slice_subrange;

verus! {

/// The operations of the proof program.
///
/// The position of a variant in this list is the byte that stands for it on
/// the wire, so new operations are added at the end only.
#[derive(Clone, Copy, Debug, PartialEq, Eq)]
pub enum ProofInstruction {
    /// Close a proof context state.
    ///
    /// Accounts:
    ///   0. `[writable]` the proof context account to close
    ///   1. `[writable]` the account that receives the lamports
    ///   2. `[signer]` the context account's authority
    ///
    /// Data: none.
    CloseContextState,
    /// Verify a zero-balance proof.
    ///
    /// Accounts, when the result is kept in a proof context account:
    ///   0. `[writable]` the proof context account
    ///   1. `[]` the proof context account's authority
    ///
    /// otherwise none.
    ///
    /// Data: the zero-balance proof record.
    VerifyZeroBalance,
    /// Verify a withdraw proof. Accounts as for `VerifyZeroBalance`.
    ///
    /// Data: the withdraw proof record.
    VerifyWithdraw,
    /// Verify that two ciphertexts hold the same amount. Accounts as for
    /// `VerifyZeroBalance`.
    ///
    /// Data: the ciphertext-ciphertext equality proof record.
    VerifyCiphertextCiphertextEquality,
    /// Verify a transfer proof. Accounts as for `VerifyZeroBalance`.
    ///
    /// Data: the transfer proof record.
    VerifyTransfer,
    /// Verify a transfer-with-fee proof. Accounts as for `VerifyZeroBalance`.
    ///
    /// Data: the transfer-with-fee proof record.
    VerifyTransferWithFee,
    /// Verify a public-key validity proof. Accounts as for
    /// `VerifyZeroBalance`.
    ///
    /// Data: the public-key validity proof record.
    VerifyPubkeyValidity,
}

/// The two accounts that keep the result of a verification.
#[derive(Clone, Copy, Debug, PartialEq)]
pub struct ContextStateInfo<'a> {
    /// The account that holds the result.
    pub context_state_account: &'a Pubkey,
    /// The account that may close it.
    pub context_state_authority: &'a Pubkey,
}

/// The accounts of a verify operation: the context account, writable, and its
/// authority, read-only, neither of them a signer; none without a context.
pub open spec fn verify_proof_accounts(context_state_info: Option<ContextStateInfo>) -> Seq<
    AccountMeta,
> {
    match context_state_info {
        Some(info) => seq![
            AccountMeta { pubkey: *info.context_state_account, is_signer: false, is_writable: true },
            AccountMeta {
                pubkey: *info.context_state_authority,
                is_signer: false,
                is_writable: false,
            },
        ],
        None => Seq::empty(),
    }
}

/// The accounts of the close operation: the context account and the
/// destination, both writable, then the authority, which signs.
pub open spec fn close_context_state_accounts(
    context_state_info: ContextStateInfo,
    destination_account: Pubkey,
) -> Seq<AccountMeta> {
    seq![
        AccountMeta {
            pubkey: *context_state_info.context_state_account,
            is_signer: false,
            is_writable: true,
        },
        AccountMeta { pubkey: destination_account, is_signer: false, is_writable: true },
        AccountMeta {
            pubkey: *context_state_info.context_state_authority,
            is_signer: true,
            is_writable: false,
        },
    ]
}

/// The data of an instruction: the operation's byte, then the record's bytes.
pub open spec fn instruction_data(instruction: ProofInstruction, proof_data: Seq<u8>) -> Seq<u8> {
    seq![instruction.discriminant()] + proof_data
}

/// The operation that instruction data names, if any.
pub open spec fn decoded_instruction_type(input: Seq<u8>) -> Option<ProofInstruction> {
    if input.len() == 0 {
        None
    } else {
        ProofInstruction::from_discriminant(input[0])
    }
}

/// The bytes that instruction data carries for its operation: all that
/// follows the first byte. Empty data carries none.
pub open spec fn decoded_proof_bytes(input: Seq<u8>) -> Option<Seq<u8>> {
    if input.len() >= 1 {
        Some(input.subrange(1, input.len() as int))
    } else {
        None
    }
}

/// The bytes of the record that instruction data carries, read as a record of
/// `size` bytes: all that follows the first byte, if that is `size` bytes
/// exactly.
pub open spec fn decoded_proof_data(input: Seq<u8>, size: nat) -> Option<Seq<u8>> {
    match decoded_proof_bytes(input) {
        Some(bytes) => if bytes.len() == size {
            Some(bytes)
        } else {
            None
        },
        None => None,
    }
}

/// What every instruction for the proof program looks like.
pub open spec fn is_proof_instruction(
    instruction: Instruction,
    accounts: Seq<AccountMeta>,
    data: Seq<u8>,
) -> bool {
    &&& instruction.program_id.0 == zk_token_proof_program::ID
    &&& instruction.accounts@ == accounts
    &&& instruction.data@ == data
}

/// Create a `CloseContextState` instruction.
pub fn close_context_state(
    context_state_info: ContextStateInfo,
    destination_account: &Pubkey,
) -> (instruction: Instruction)
    ensures
        is_proof_instruction(
            instruction,
            close_context_state_accounts(context_state_info, *destination_account),
            instruction_data(ProofInstruction::CloseContextState, Seq::empty()),
        ),
{
    let mut accounts: Vec<AccountMeta> = Vec::new();
    accounts.push(AccountMeta::new(*context_state_info.context_state_account, false));
    accounts.push(AccountMeta::new(*destination_account, false));
    accounts.push(AccountMeta::new_readonly(*context_state_info.context_state_authority, true));

    let mut data: Vec<u8> = Vec::new();
    data.push(ProofInstruction::CloseContextState.to_u8());

    let instruction = Instruction { program_id: zk_token_proof_program::id(), accounts, data };
    assert(instruction.accounts@ =~= close_context_state_accounts(
        context_state_info,
        *destination_account,
    ));
    assert(instruction.data@ =~= instruction_data(
        ProofInstruction::CloseContextState,
        Seq::empty(),
    ));
    instruction
}

/// Create a `VerifyZeroBalance` instruction.
pub fn verify_zero_balance(
    context_state_info: Option<ContextStateInfo>,
    proof_data: &ZeroBalanceProofData,
) -> (instruction: Instruction)
    ensures
        is_proof_instruction(
            instruction,
            verify_proof_accounts(context_state_info),
            instruction_data(ProofInstruction::VerifyZeroBalance, proof_data@),
        ),
        instruction.data@.len() == 1 + ProofInstruction::VerifyZeroBalance.proof_data_len(),
{
    ProofInstruction::VerifyZeroBalance.encode_verify_proof(context_state_info, &proof_data.0)
}

/// Create a `VerifyWithdraw` instruction.
pub fn verify_withdraw(
    context_state_info: Option<ContextStateInfo>,
    proof_data: &WithdrawData,
) -> (instruction: Instruction)
    ensures
        is_proof_instruction(
            instruction,
            verify_proof_accounts(context_state_info),
            instruction_data(ProofInstruction::VerifyWithdraw, proof_data@),
        ),
        instruction.data@.len() == 1 + ProofInstruction::VerifyWithdraw.proof_data_len(),
{
    ProofInstruction::VerifyWithdraw.encode_verify_proof(context_state_info, &proof_data.0)
}

/// Create a `VerifyCiphertextCiphertextEquality` instruction.
pub fn verify_ciphertext_ciphertext_equality(
    context_state_info: Option<ContextStateInfo>,
    proof_data: &CiphertextCiphertextEqualityProofData,
) -> (instruction: Instruction)
    ensures
        is_proof_instruction(
            instruction,
            verify_proof_accounts(context_state_info),
            instruction_data(ProofInstruction::VerifyCiphertextCiphertextEquality, proof_data@),
        ),
        instruction.data@.len() == 1 + ProofInstruction::VerifyCiphertextCiphertextEquality.proof_data_len(),
{
    ProofInstruction::VerifyCiphertextCiphertextEquality.encode_verify_proof(
        context_state_info,
        &proof_data.0,
    )
}

/// Create a `VerifyTransfer` instruction.
pub fn verify_transfer(
    context_state_info: Option<ContextStateInfo>,
    proof_data: &TransferData,
) -> (instruction: Instruction)
    ensures
        is_proof_instruction(
            instruction,
            verify_proof_accounts(context_state_info),
            instruction_data(ProofInstruction::VerifyTransfer, proof_data@),
        ),
        instruction.data@.len() == 1 + ProofInstruction::VerifyTransfer.proof_data_len(),
{
    ProofInstruction::VerifyTransfer.encode_verify_proof(context_state_info, &proof_data.0)
}

/// Create a `VerifyTransferWithFee` instruction.
pub fn verify_transfer_with_fee(
    context_state_info: Option<ContextStateInfo>,
    proof_data: &TransferWithFeeData,
) -> (instruction: Instruction)
    ensures
        is_proof_instruction(
            instruction,
            verify_proof_accounts(context_state_info),
            instruction_data(ProofInstruction::VerifyTransferWithFee, proof_data@),
        ),
        instruction.data@.len() == 1 + ProofInstruction::VerifyTransferWithFee.proof_data_len(),
{
    ProofInstruction::VerifyTransferWithFee.encode_verify_proof(context_state_info, &proof_data.0)
}

/// Create a `VerifyPubkeyValidity` instruction.
pub fn verify_pubkey_validity(
    context_state_info: Option<ContextStateInfo>,
    proof_data: &PubkeyValidityData,
) -> (instruction: Instruction)
    ensures
        is_proof_instruction(
            instruction,
            verify_proof_accounts(context_state_info),
            instruction_data(ProofInstruction::VerifyPubkeyValidity, proof_data@),
        ),
        instruction.data@.len() == 1 + ProofInstruction::VerifyPubkeyValidity.proof_data_len(),
{
    ProofInstruction::VerifyPubkeyValidity.encode_verify_proof(context_state_info, &proof_data.0)
}

impl ProofInstruction {
    /// The byte that stands for an operation on the wire.
    pub open spec fn discriminant(self) -> u8 {
        match self {
            ProofInstruction::CloseContextState => 0,
            ProofInstruction::VerifyZeroBalance => 1,
            ProofInstruction::VerifyWithdraw => 2,
            ProofInstruction::VerifyCiphertextCiphertextEquality => 3,
            ProofInstruction::VerifyTransfer => 4,
            ProofInstruction::VerifyTransferWithFee => 5,
            ProofInstruction::VerifyPubkeyValidity => 6,
        }
    }

    /// The operation that a byte stands for, if any.
    pub open spec fn from_discriminant(byte: u8) -> Option<ProofInstruction> {
        if byte == 0 {
            Some(ProofInstruction::CloseContextState)
        } else if byte == 1 {
            Some(ProofInstruction::VerifyZeroBalance)
        } else if byte == 2 {
            Some(ProofInstruction::VerifyWithdraw)
        } else if byte == 3 {
            Some(ProofInstruction::VerifyCiphertextCiphertextEquality)
        } else if byte == 4 {
            Some(ProofInstruction::VerifyTransfer)
        } else if byte == 5 {
            Some(ProofInstruction::VerifyTransferWithFee)
        } else if byte == 6 {
            Some(ProofInstruction::VerifyPubkeyValidity)
        } else {
            None
        }
    }

    /// The size of the record that an operation takes; the close operation
    /// takes none.
    pub open spec fn proof_data_len(self) -> nat {
        match self {
            ProofInstruction::CloseContextState => 0,
            ProofInstruction::VerifyZeroBalance => ZERO_BALANCE_PROOF_DATA_LEN as nat,
            ProofInstruction::VerifyWithdraw => WITHDRAW_DATA_LEN as nat,
            ProofInstruction::VerifyCiphertextCiphertextEquality => {
                CIPHERTEXT_CIPHERTEXT_EQUALITY_PROOF_DATA_LEN as nat
            },
            ProofInstruction::VerifyTransfer => TRANSFER_DATA_LEN as nat,
            ProofInstruction::VerifyTransferWithFee => TRANSFER_WITH_FEE_DATA_LEN as nat,
            ProofInstruction::VerifyPubkeyValidity => PUBKEY_VALIDITY_DATA_LEN as nat,
        }
    }

    /// The byte that stands for this operation.
    pub fn to_u8(&self) -> (byte: u8)
        ensures
            byte == self.discriminant(),
    {
        match self {
            ProofInstruction::CloseContextState => 0,
            ProofInstruction::VerifyZeroBalance => 1,
            ProofInstruction::VerifyWithdraw => 2,
            ProofInstruction::VerifyCiphertextCiphertextEquality => 3,
            ProofInstruction::VerifyTransfer => 4,
            ProofInstruction::VerifyTransferWithFee => 5,
            ProofInstruction::VerifyPubkeyValidity => 6,
        }
    }

    /// The operation that `byte` stands for; `None` for a byte that no
    /// operation has.
    pub fn from_u8(byte: u8) -> (instruction: Option<ProofInstruction>)
        ensures
            instruction == Self::from_discriminant(byte),
    {
        match byte {
            0 => Some(ProofInstruction::CloseContextState),
            1 => Some(ProofInstruction::VerifyZeroBalance),
            2 => Some(ProofInstruction::VerifyWithdraw),
            3 => Some(ProofInstruction::VerifyCiphertextCiphertextEquality),
            4 => Some(ProofInstruction::VerifyTransfer),
            5 => Some(ProofInstruction::VerifyTransferWithFee),
            6 => Some(ProofInstruction::VerifyPubkeyValidity),
            _ => None,
        }
    }

    /// The instruction that asks for this operation on `proof_data`.
    ///
    /// With a context, the result of the verification is kept in the context
    /// account; without one, the instruction refers to no account.
    pub fn encode_verify_proof<const N: usize>(
        &self,
        context_state_info: Option<ContextStateInfo>,
        proof_data: &[u8; N],
    ) -> (instruction: Instruction)
        ensures
            is_proof_instruction(
                instruction,
                verify_proof_accounts(context_state_info),
                instruction_data(*self, proof_data@),
            ),
    {
        self.encode_verify_proof_bytes(context_state_info, pod::bytes_of(proof_data))
    }

    /// The instruction that asks for this operation on the record whose raw
    /// bytes are `proof_data`, for those who hold the record as bytes
    /// already.
    pub fn encode_verify_proof_bytes(
        &self,
        context_state_info: Option<ContextStateInfo>,
        proof_data: &[u8],
    ) -> (instruction: Instruction)
        ensures
            is_proof_instruction(
                instruction,
                verify_proof_accounts(context_state_info),
                instruction_data(*self, proof_data@),
            ),
    {
        let mut accounts: Vec<AccountMeta> = Vec::new();
        if let Some(info) = context_state_info {
            accounts.push(AccountMeta::new(*info.context_state_account, false));
            accounts.push(AccountMeta::new_readonly(*info.context_state_authority, false));
        }
        assert(accounts@ =~= verify_proof_accounts(context_state_info));

        let mut data: Vec<u8> = Vec::new();
        data.push(self.to_u8());
        data.extend_from_slice(proof_data);
        assert(data@ =~= instruction_data(*self, proof_data@));

        Instruction { program_id: zk_token_proof_program::id(), accounts, data }
    }

    /// The operation that instruction data asks for.
    ///
    /// `None` for empty data and for a first byte that no operation has: such
    /// data belongs to something else.
    pub fn instruction_type(input: &[u8]) -> (instruction: Option<ProofInstruction>)
        ensures
            instruction == decoded_instruction_type(input@),
    {
        if input.len() == 0 {
            None
        } else {
            Self::from_u8(input[0])
        }
    }

    /// The proof record that instruction data carries, read as a record of
    /// `N` bytes.
    ///
    /// All or nothing: `None` unless exactly `N` bytes follow the first one.
    pub fn proof_data<const N: usize>(input: &[u8]) -> (proof_data: Option<&[u8; N]>)
        ensures
            match proof_data {
                Some(record) => decoded_proof_data(input@, N as nat) == Some(record@),
                None => decoded_proof_data(input@, N as nat) is None,
            },
    {
        match Self::proof_data_bytes(input) {
            Some(bytes) => pod::try_from_bytes(bytes),
            None => None,
        }
    }

    /// The raw bytes of the record that instruction data carries: all that
    /// follows the first byte. `None` for empty data.
    pub fn proof_data_bytes(input: &[u8]) -> (bytes: Option<&[u8]>)
        ensures
            match bytes {
                Some(bytes) => decoded_proof_bytes(input@) == Some(bytes@),
                None => decoded_proof_bytes(input@) is None,
            },
    {
        if input.len() == 0 {
            None
        } else {
            Some(slice_subrange(input, 1, input.len()))
        }
    }
}

/// Every operation is read back from its own byte.
pub proof fn lemma_discriminant_round_trip(instruction: ProofInstruction)
    ensures
        ProofInstruction::from_discriminant(instruction.discriminant()) == Some(instruction),
{
}

/// The bytes 0 to 6 stand for an operation, each for the one that has it as
/// its byte, and no other byte stands for any.
pub proof fn lemma_from_discriminant(byte: u8)
    ensures
        ProofInstruction::from_discriminant(byte) is Some <==> byte <= 6,
        ProofInstruction::from_discriminant(byte) matches Some(instruction)
            ==> instruction.discriminant() == byte,
{
}

/// Decoding inverts encoding: from the data built for an operation and a
/// record, the operation is read back, and so is the record when it is read
/// at its own size.
pub proof fn lemma_decode_inverts_encode(instruction: ProofInstruction, proof_data: Seq<u8>)
    ensures
        decoded_instruction_type(instruction_data(instruction, proof_data)) == Some(instruction),
        decoded_proof_data(instruction_data(instruction, proof_data), proof_data.len()) == Some(
            proof_data,
        ),
{
    let data = instruction_data(instruction, proof_data);
    assert(data[0] == instruction.discriminant());
    assert(data.subrange(1, data.len() as int) =~= proof_data);
}

/// A record is not read back as a record of another size: the data built for
/// a record of one size holds no record of any other size.
pub proof fn lemma_decode_rejects_other_size(
    instruction: ProofInstruction,
    proof_data: Seq<u8>,
    size: nat,
)
    requires
        size != proof_data.len(),
    ensures
        decoded_proof_data(instruction_data(instruction, proof_data), size) is None,
{
}

/// No two operations take records of the same size. So the data built for
/// one operation's record holds no record of any other operation: a record
/// is never read as another type.
pub proof fn lemma_record_is_not_read_as_another_type(
    instruction: ProofInstruction,
    proof_data: Seq<u8>,
    other: ProofInstruction,
)
    requires
        proof_data.len() == instruction.proof_data_len(),
        other != instruction,
    ensures
        other.proof_data_len() != instruction.proof_data_len(),
        decoded_proof_data(instruction_data(instruction, proof_data), other.proof_data_len())
            is None,
{
}

} // verus!
