use std::str::FromStr;
use zk_token_sdk::instruction::{AccountMeta, Instruction};
use zk_token_sdk::proof_data::{
    CiphertextCiphertextEqualityProofData, PubkeyValidityData, TransferData, TransferWithFeeData,
    WithdrawData, ZeroBalanceProofData, CIPHERTEXT_CIPHERTEXT_EQUALITY_PROOF_DATA_LEN,
    PUBKEY_VALIDITY_DATA_LEN, TRANSFER_DATA_LEN, TRANSFER_WITH_FEE_DATA_LEN, WITHDRAW_DATA_LEN,
    ZERO_BALANCE_PROOF_DATA_LEN,
};
use zk_token_sdk::pubkey::Pubkey;
use zk_token_sdk::zk_token_proof_instruction::{
    close_context_state, verify_ciphertext_ciphertext_equality, verify_pubkey_validity,
    verify_transfer, verify_transfer_with_fee, verify_withdraw, verify_zero_balance,
    ContextStateInfo, ProofInstruction,
};
use zk_token_sdk::zk_token_proof_program;

const VERIFY_OPERATIONS: [ProofInstruction; 6] = [
    ProofInstruction::VerifyZeroBalance,
    ProofInstruction::VerifyWithdraw,
    ProofInstruction::VerifyCiphertextCiphertextEquality,
    ProofInstruction::VerifyTransfer,
    ProofInstruction::VerifyTransferWithFee,
    ProofInstruction::VerifyPubkeyValidity,
];

fn record<const N: usize>(first: u8) -> [u8; N] {
    let mut bytes = [0_u8; N];
    for (i, byte) in bytes.iter_mut().enumerate() {
        *byte = first.wrapping_add(i as u8);
    }
    bytes
}

fn check_verify_instruction<const N: usize>(
    instruction: &Instruction,
    operation: ProofInstruction,
    proof_data: &[u8; N],
) {
    assert_eq!(instruction.program_id, zk_token_proof_program::id());
    assert!(instruction.accounts.is_empty());
    assert_eq!(instruction.data.len(), N + 1);
    assert_eq!(instruction.data[0], operation.to_u8());
    assert_eq!(&instruction.data[1..], &proof_data[..]);
    assert_eq!(ProofInstruction::instruction_type(&instruction.data), Some(operation));
    assert_eq!(ProofInstruction::proof_data::<N>(&instruction.data), Some(proof_data));
}

#[test]
fn test_program_id() {
    let id = zk_token_proof_program::id();
    assert_eq!(id.0, zk_token_proof_program::ID);
    assert_eq!(
        solana_sdk::pubkey::Pubkey::new_from_array(id.0),
        solana_sdk::pubkey::Pubkey::from_str("ZkTokenProof1111111111111111111111111111111").unwrap()
    );
    assert_eq!(
        solana_program::pubkey::Pubkey::new_from_array(zk_token_proof_program::ID).to_string(),
        "ZkTokenProof1111111111111111111111111111111"
    );
}

#[test]
fn test_default_pubkey_is_all_zero() {
    assert_eq!(Pubkey::default(), Pubkey([0; 32]));
    assert_eq!(Pubkey::default().0, solana_sdk::pubkey::Pubkey::default().to_bytes());
}

#[test]
fn test_account_meta_constructors() {
    let key = Pubkey([5; 32]);
    assert_eq!(
        AccountMeta::new(key, false),
        AccountMeta { pubkey: key, is_signer: false, is_writable: true }
    );
    assert_eq!(
        AccountMeta::new(key, true),
        AccountMeta { pubkey: key, is_signer: true, is_writable: true }
    );
    assert_eq!(
        AccountMeta::new_readonly(key, false),
        AccountMeta { pubkey: key, is_signer: false, is_writable: false }
    );
    assert_eq!(
        AccountMeta::new_readonly(key, true),
        AccountMeta { pubkey: key, is_signer: true, is_writable: false }
    );

    let theirs = solana_program::instruction::AccountMeta::new(
        solana_program::pubkey::Pubkey::new_from_array(key.0),
        true,
    );
    let ours = AccountMeta::new(key, true);
    assert_eq!(theirs.pubkey.to_bytes(), ours.pubkey.0);
    assert_eq!(theirs.is_signer, ours.is_signer);
    assert_eq!(theirs.is_writable, ours.is_writable);
    let theirs = solana_program::instruction::AccountMeta::new_readonly(
        solana_program::pubkey::Pubkey::new_from_array(key.0),
        false,
    );
    let ours = AccountMeta::new_readonly(key, false);
    assert_eq!(theirs.is_signer, ours.is_signer);
    assert_eq!(theirs.is_writable, ours.is_writable);
}

#[test]
fn test_discriminants() {
    assert_eq!(ProofInstruction::CloseContextState.to_u8(), 0);
    assert_eq!(ProofInstruction::VerifyZeroBalance.to_u8(), 1);
    assert_eq!(ProofInstruction::VerifyWithdraw.to_u8(), 2);
    assert_eq!(ProofInstruction::VerifyCiphertextCiphertextEquality.to_u8(), 3);
    assert_eq!(ProofInstruction::VerifyTransfer.to_u8(), 4);
    assert_eq!(ProofInstruction::VerifyTransferWithFee.to_u8(), 5);
    assert_eq!(ProofInstruction::VerifyPubkeyValidity.to_u8(), 6);
}

#[test]
fn test_from_u8_inverts_to_u8() {
    assert_eq!(ProofInstruction::from_u8(0), Some(ProofInstruction::CloseContextState));
    for operation in VERIFY_OPERATIONS {
        assert_eq!(ProofInstruction::from_u8(operation.to_u8()), Some(operation));
    }
    for byte in 7..=255_u8 {
        assert_eq!(ProofInstruction::from_u8(byte), None);
    }
}

#[test]
fn test_instruction_type() {
    assert_eq!(ProofInstruction::instruction_type(&[]), None);
    assert_eq!(ProofInstruction::instruction_type(&[0]), Some(ProofInstruction::CloseContextState));
    assert_eq!(
        ProofInstruction::instruction_type(&[3, 9, 9, 9]),
        Some(ProofInstruction::VerifyCiphertextCiphertextEquality)
    );
    assert_eq!(
        ProofInstruction::instruction_type(&[6]),
        Some(ProofInstruction::VerifyPubkeyValidity)
    );
    assert_eq!(ProofInstruction::instruction_type(&[7]), None);
    assert_eq!(ProofInstruction::instruction_type(&[255, 0, 1]), None);
}

#[test]
fn test_close_context_state() {
    let account = Pubkey([1; 32]);
    let authority = Pubkey([2; 32]);
    let destination = Pubkey([3; 32]);
    let info = ContextStateInfo {
        context_state_account: &account,
        context_state_authority: &authority,
    };

    let instruction = close_context_state(info, &destination);

    assert_eq!(instruction.program_id, zk_token_proof_program::id());
    assert_eq!(
        instruction.accounts,
        vec![
            AccountMeta { pubkey: account, is_signer: false, is_writable: true },
            AccountMeta { pubkey: destination, is_signer: false, is_writable: true },
            AccountMeta { pubkey: authority, is_signer: true, is_writable: false },
        ]
    );
    assert_eq!(instruction.data, vec![0]);
    assert_eq!(
        ProofInstruction::instruction_type(&instruction.data),
        Some(ProofInstruction::CloseContextState)
    );
    let no_record: [u8; 0] = [];
    assert_eq!(ProofInstruction::proof_data::<0>(&instruction.data), Some(&no_record));
}

#[test]
fn test_encode_verify_proof_with_context_state() {
    let account = Pubkey([7; 32]);
    let authority = Pubkey([8; 32]);
    let info = ContextStateInfo {
        context_state_account: &account,
        context_state_authority: &authority,
    };
    let proof_data = record::<96>(40);

    for operation in VERIFY_OPERATIONS {
        let instruction = operation.encode_verify_proof(Some(info), &proof_data);

        assert_eq!(instruction.program_id, zk_token_proof_program::id());
        assert_eq!(
            instruction.accounts,
            vec![
                AccountMeta { pubkey: account, is_signer: false, is_writable: true },
                AccountMeta { pubkey: authority, is_signer: false, is_writable: false },
            ]
        );
        let mut expected = vec![operation.to_u8()];
        expected.extend_from_slice(&proof_data);
        assert_eq!(instruction.data, expected);
    }
}

#[test]
fn test_encode_verify_proof_without_context_state() {
    let proof_data = record::<192>(1);
    for operation in VERIFY_OPERATIONS {
        let instruction = operation.encode_verify_proof(None, &proof_data);
        check_verify_instruction(&instruction, operation, &proof_data);
    }
}

#[test]
fn test_record_sizes() {
    assert_eq!(ZERO_BALANCE_PROOF_DATA_LEN, 192);
    assert_eq!(WITHDRAW_DATA_LEN, 992);
    assert_eq!(CIPHERTEXT_CIPHERTEXT_EQUALITY_PROOF_DATA_LEN, 416);
    assert_eq!(TRANSFER_DATA_LEN, 1536);
    assert_eq!(TRANSFER_WITH_FEE_DATA_LEN, 2282);
    assert_eq!(PUBKEY_VALIDITY_DATA_LEN, 96);
    assert_eq!(std::mem::size_of::<ZeroBalanceProofData>(), 192);
    assert_eq!(std::mem::size_of::<WithdrawData>(), 992);
    assert_eq!(std::mem::size_of::<CiphertextCiphertextEqualityProofData>(), 416);
    assert_eq!(std::mem::size_of::<TransferData>(), 1536);
    assert_eq!(std::mem::size_of::<TransferWithFeeData>(), 2282);
    assert_eq!(std::mem::size_of::<PubkeyValidityData>(), 96);
    assert_eq!(std::mem::align_of::<TransferWithFeeData>(), 1);
}

#[test]
fn test_builders_name_their_operation() {
    let account = Pubkey([7; 32]);
    let authority = Pubkey([8; 32]);
    let info = ContextStateInfo {
        context_state_account: &account,
        context_state_authority: &authority,
    };

    let zero_balance = ZeroBalanceProofData(record(1));
    check_verify_instruction(
        &verify_zero_balance(None, &zero_balance),
        ProofInstruction::VerifyZeroBalance,
        &zero_balance.0,
    );
    let withdraw = WithdrawData(record(2));
    check_verify_instruction(
        &verify_withdraw(None, &withdraw),
        ProofInstruction::VerifyWithdraw,
        &withdraw.0,
    );
    let equality = CiphertextCiphertextEqualityProofData(record(3));
    check_verify_instruction(
        &verify_ciphertext_ciphertext_equality(None, &equality),
        ProofInstruction::VerifyCiphertextCiphertextEquality,
        &equality.0,
    );
    let transfer = TransferData(record(4));
    check_verify_instruction(
        &verify_transfer(None, &transfer),
        ProofInstruction::VerifyTransfer,
        &transfer.0,
    );
    let transfer_with_fee = TransferWithFeeData(record(5));
    check_verify_instruction(
        &verify_transfer_with_fee(None, &transfer_with_fee),
        ProofInstruction::VerifyTransferWithFee,
        &transfer_with_fee.0,
    );
    let pubkey_validity = PubkeyValidityData(record(6));
    check_verify_instruction(
        &verify_pubkey_validity(None, &pubkey_validity),
        ProofInstruction::VerifyPubkeyValidity,
        &pubkey_validity.0,
    );

    let with_context = verify_pubkey_validity(Some(info), &pubkey_validity);
    assert_eq!(with_context.accounts.len(), 2);
    assert_eq!(with_context.accounts[0], AccountMeta::new(account, false));
    assert_eq!(with_context.accounts[1], AccountMeta::new_readonly(authority, false));
    assert_eq!(with_context.data, verify_pubkey_validity(None, &pubkey_validity).data);
    assert_eq!(with_context.data.len(), 1 + PUBKEY_VALIDITY_DATA_LEN);
}

#[test]
fn test_a_record_is_not_read_as_another_type() {
    let transfer = TransferData(record(4));
    let data = verify_transfer(None, &transfer).data;

    assert_eq!(ProofInstruction::proof_data::<TRANSFER_DATA_LEN>(&data), Some(&transfer.0));
    assert_eq!(ProofInstruction::proof_data::<ZERO_BALANCE_PROOF_DATA_LEN>(&data), None);
    assert_eq!(ProofInstruction::proof_data::<WITHDRAW_DATA_LEN>(&data), None);
    assert_eq!(
        ProofInstruction::proof_data::<CIPHERTEXT_CIPHERTEXT_EQUALITY_PROOF_DATA_LEN>(&data),
        None
    );
    assert_eq!(ProofInstruction::proof_data::<TRANSFER_WITH_FEE_DATA_LEN>(&data), None);
    assert_eq!(ProofInstruction::proof_data::<PUBKEY_VALIDITY_DATA_LEN>(&data), None);
}

#[test]
fn test_proof_data_is_all_or_nothing() {
    let proof_data = record::<96>(9);
    let instruction = verify_pubkey_validity(None, &PubkeyValidityData(proof_data));

    assert_eq!(ProofInstruction::proof_data::<96>(&instruction.data), Some(&proof_data));
    assert_eq!(ProofInstruction::proof_data::<95>(&instruction.data), None);
    assert_eq!(ProofInstruction::proof_data::<97>(&instruction.data), None);
    assert_eq!(ProofInstruction::proof_data::<0>(&instruction.data), None);
    assert_eq!(ProofInstruction::proof_data::<192>(&instruction.data), None);

    assert_eq!(ProofInstruction::proof_data::<96>(&instruction.data[..96]), None);
    assert_eq!(ProofInstruction::proof_data::<96>(&[]), None);
    assert_eq!(ProofInstruction::proof_data::<0>(&[]), None);
    assert_eq!(ProofInstruction::proof_data::<1>(&[6]), None);
    assert_eq!(ProofInstruction::proof_data::<1>(&[6, 42]), Some(&[42]));
}

#[test]
fn test_proof_data_does_not_look_at_the_operation() {
    // the first byte is skipped, whatever it is
    let mut data = vec![200_u8];
    data.extend_from_slice(&record::<32>(0));
    assert_eq!(ProofInstruction::instruction_type(&data), None);
    assert_eq!(ProofInstruction::proof_data::<32>(&data), Some(&record::<32>(0)));
}

#[test]
fn test_encode_verify_proof_bytes() {
    let account = Pubkey([7; 32]);
    let authority = Pubkey([8; 32]);
    let info = ContextStateInfo {
        context_state_account: &account,
        context_state_authority: &authority,
    };
    let proof_data = record::<96>(40);

    for operation in VERIFY_OPERATIONS {
        let from_bytes = operation.encode_verify_proof_bytes(Some(info), &proof_data[..]);
        assert_eq!(from_bytes, operation.encode_verify_proof(Some(info), &proof_data));
        let from_bytes = operation.encode_verify_proof_bytes(None, &proof_data[..]);
        assert_eq!(from_bytes, operation.encode_verify_proof(None, &proof_data));
    }

    let instruction = ProofInstruction::VerifyTransfer.encode_verify_proof_bytes(None, &[1, 2, 3]);
    assert_eq!(instruction.program_id, zk_token_proof_program::id());
    assert!(instruction.accounts.is_empty());
    assert_eq!(instruction.data, vec![4, 1, 2, 3]);
    let instruction = ProofInstruction::VerifyWithdraw.encode_verify_proof_bytes(None, &[]);
    assert_eq!(instruction.data, vec![2]);
}

#[test]
fn test_proof_data_bytes() {
    assert_eq!(ProofInstruction::proof_data_bytes(&[]), None);
    assert_eq!(ProofInstruction::proof_data_bytes(&[6]), Some(&[][..]));
    assert_eq!(ProofInstruction::proof_data_bytes(&[6, 1, 2, 3]), Some(&[1, 2, 3][..]));
    assert_eq!(ProofInstruction::proof_data_bytes(&[200, 9]), Some(&[9][..]));

    let proof_data = record::<192>(3);
    let instruction = verify_zero_balance(None, &ZeroBalanceProofData(proof_data));
    assert_eq!(ProofInstruction::proof_data_bytes(&instruction.data), Some(&proof_data[..]));
}
