//! The cryptographic primitives that the balance cipher is built from.
//!
//! Each function here makes one call into another crate. Verus does not read
//! the bodies: what the contracts say is taken on trust, and each doc comment
//! says what that is. Where a result is too long to write down but depends on
//! the arguments alone, it gets a name, a spec function without a body, and
//! the contract says that the call returns what the name stands for.
use aes_gcm_siv::aead::{Aead, NewAead};
use aes_gcm_siv::Aes128GcmSiv;
use rand::rngs::OsRng;
use rand::Rng;
use sha3::{Digest, Sha3_512};
use subtle::ConstantTimeEq;
use vstd::prelude::*;
use zeroize::Zeroize;

verus! {

/// A plaintext for AES-GCM-SIV has fewer bytes than this: the cipher counts
/// blocks of 16 bytes in 32 bits.
pub const P_MAX: u64 = 0x10_0000_0000;

/// Bytes that AES-GCM-SIV adds to a plaintext: the authentication tag.
pub const TAG_LEN: usize = 16;

/// What AES-128-GCM-SIV, without associated data, makes of a plaintext under
/// a key of 16 bytes and a nonce of 12: the encrypted plaintext followed by
/// the tag, or `None` for a plaintext that the cipher does not take.
pub uninterp spec fn aes_128_gcm_siv_seal(key: Seq<u8>, nonce: Seq<u8>, plaintext: Seq<u8>) -> Option<
    Seq<u8>,
>;

/// What AES-128-GCM-SIV, without associated data, recovers from a ciphertext
/// under a key of 16 bytes and a nonce of 12: the plaintext, or `None` where
/// the ciphertext does not bear the tag that key and nonce give it.
pub uninterp spec fn aes_128_gcm_siv_open(key: Seq<u8>, nonce: Seq<u8>, ciphertext: Seq<u8>) -> Option<
    Seq<u8>,
>;

/// The SHA3-512 digest of `data`.
pub uninterp spec fn sha3_512(data: Seq<u8>) -> Seq<u8>;

/// `len` zero bytes.
pub open spec fn zeros(len: nat) -> Seq<u8> {
    Seq::new(len, |i: int| 0u8)
}

/// `Aes128GcmSiv::new(key).encrypt(nonce, plaintext)`.
///
/// Trusted: the result is a function of the three arguments, named
/// [`aes_128_gcm_siv_seal`]; the cipher refuses no plaintext that
/// `requires` admits, and what it returns is longer than the plaintext by
/// the tag. The cipher's error carries nothing and becomes `None`.
///
/// A plaintext of [`P_MAX`] bytes or more runs out of key stream, and the
/// buffer for plaintext and tag must be one that can be allocated.
#[verifier::external_body]
pub(crate) fn seal(key: &[u8; 16], nonce: &[u8; 12], plaintext: &[u8]) -> (sealed: Option<Vec<u8>>)
    requires
        plaintext@.len() < P_MAX,
        plaintext@.len() + TAG_LEN <= isize::MAX,
    ensures
        match sealed {
            Some(bytes) => aes_128_gcm_siv_seal(key@, nonce@, plaintext@) == Some(bytes@),
            None => false,
        },
        sealed matches Some(bytes) ==> bytes@.len() == plaintext@.len() + TAG_LEN,
{
    Aes128GcmSiv::new(&(*key).into()).encrypt(&(*nonce).into(), plaintext).ok()
}

/// `Aes128GcmSiv::new(key).decrypt(nonce, ciphertext)`.
///
/// Trusted: the result is a function of the three arguments, named
/// [`aes_128_gcm_siv_open`]; a plaintext that comes back is shorter than the
/// ciphertext by the tag; and decryption is the inverse of encryption, as
/// RFC 8452 has it. The cipher recomputes the tag over what it recovered and
/// compares, so a plaintext comes back exactly where `ciphertext` is what
/// [`seal`] makes of it under the same key and nonce: what comes back seals
/// to `ciphertext`, nothing else seals to it, and where nothing comes back,
/// no plaintext does. The cipher's error carries nothing and becomes `None`.
///
/// A ciphertext whose encrypted part has [`P_MAX`] bytes or more runs out of
/// key stream.
#[verifier::external_body]
pub(crate) fn open(key: &[u8; 16], nonce: &[u8; 12], ciphertext: &[u8]) -> (opened: Option<Vec<u8>>)
    requires
        ciphertext@.len() < P_MAX + TAG_LEN,
    ensures
        match opened {
            Some(bytes) => aes_128_gcm_siv_open(key@, nonce@, ciphertext@) == Some(bytes@),
            None => aes_128_gcm_siv_open(key@, nonce@, ciphertext@) is None,
        },
        opened matches Some(bytes) ==> bytes@.len() + TAG_LEN == ciphertext@.len(),
        opened matches Some(bytes) ==> aes_128_gcm_siv_seal(key@, nonce@, bytes@) == Some(
            ciphertext@,
        ),
        match opened {
            Some(bytes) => forall|plaintext: Seq<u8>|
                #[trigger] aes_128_gcm_siv_seal(key@, nonce@, plaintext) == Some(ciphertext@)
                    ==> plaintext == bytes@,
            None => forall|plaintext: Seq<u8>|
                #[trigger] aes_128_gcm_siv_seal(key@, nonce@, plaintext) != Some(ciphertext@),
        },
{
    Aes128GcmSiv::new(&(*key).into()).decrypt(&(*nonce).into(), ciphertext).ok()
}

/// `Sha3_512::new()`, `update(data)`, `finalize()`.
///
/// Trusted: the 64 bytes are a function of `data`, named [`sha3_512`].
#[verifier::external_body]
pub(crate) fn sha3_512_digest(data: &[u8]) -> (digest: [u8; 64])
    ensures
        digest@ == sha3_512(data@),
{
    let mut hasher = Sha3_512::new();
    hasher.update(data);
    hasher.finalize().into()
}

/// `subtle::ConstantTimeEq::ct_eq` on two byte slices, as a `bool`.
///
/// Trusted: the answer is whether the slices hold the same bytes. That the
/// time taken does not depend on the bytes is the called crate's promise; no
/// contract can state it.
#[verifier::external_body]
pub(crate) fn ct_eq(a: &[u8], b: &[u8]) -> (equal: bool)
    ensures
        equal == (a@ == b@),
{
    bool::from(a.ct_eq(b))
}

/// `zeroize::Zeroize::zeroize` on a byte slice.
///
/// Trusted: every byte is zero afterwards. The called function refuses a
/// slice of more than `isize::MAX` bytes.
#[verifier::external_body]
pub(crate) fn zeroize(buffer: &mut [u8])
    requires
        old(buffer)@.len() <= isize::MAX,
    ensures
        final(buffer)@ == zeros(old(buffer)@.len()),
    opens_invariants none
    no_unwind
{
    Zeroize::zeroize(buffer)
}

/// `OsRng.gen::<[u8; 12]>()`: twelve bytes from the operating system's
/// random source.
///
/// Nothing is claimed of the bytes. Where the operating system has no random
/// source the call does not return: there is no weaker source to fall back
/// on.
#[verifier::external_body]
pub(crate) fn random_nonce() -> (nonce: [u8; 12]) {
    OsRng.gen::<[u8; 12]>()
}

} // verus!
