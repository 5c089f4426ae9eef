//! The program that verifies zero-knowledge proofs about encrypted balances.
use crate::pubkey::Pubkey;
use vstd::prelude::*;

verus! {

/// The program's address, `ZkTokenProof1111111111111111111111111111111` in
/// base 58.
pub const ID: [u8; 32] = [
    8, 99, 186, 141, 217, 196, 194, 251, 23, 74, 5, 203, 162, 126, 42, 44,
    214, 35, 87, 61, 121, 233, 11, 53, 181, 121, 252, 13, 0, 0, 0, 0,
];

/// The program's address.
pub fn id() -> (program_id: Pubkey)
    ensures
        program_id.0 == ID,
{
    Pubkey(ID)
}

} // verus!
