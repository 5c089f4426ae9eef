//! Fixed-size records as raw bytes.
//!
//! A proof record is a plain byte blob of a size fixed by its type. This
//! crate never looks inside one, so here a record of `N` bytes is a
//! `[u8; N]`: it has no padding and no alignment demand, and the
//! reinterpretation that `bytemuck` offers is a change of type and nothing
//! more. The two functions below are the only places where that crate is
//! called; Verus does not read their bodies and takes their contracts on
//! trust.
use vstd::prelude::*;

verus! {

/// `bytemuck::bytes_of` on a record of `N` bytes.
///
/// Trusted: the slice handed back holds the record's own bytes, in order.
#[verifier::external_body]
pub(crate) fn bytes_of<const N: usize>(record: &[u8; N]) -> (bytes: &[u8])
    ensures
        bytes@ == record@,
{
    bytemuck::bytes_of(record)
}

/// `bytemuck::try_from_bytes` towards a record of `N` bytes.
///
/// Trusted: the call succeeds exactly when `bytes` has `N` bytes (a byte
/// array is aligned wherever it lies), and the record then holds those bytes
/// in order. The kind of failure is dropped.
#[verifier::external_body]
pub(crate) fn try_from_bytes<const N: usize>(bytes: &[u8]) -> (record: Option<&[u8; N]>)
    ensures
        record is Some <==> bytes@.len() == N,
        record matches Some(r) ==> r@ == bytes@,
{
    bytemuck::try_from_bytes(bytes).ok()
}

} // verus!
