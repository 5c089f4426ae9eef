//! Authenticated encryption of balances.
//!
//! A balance is a `u64`. It is encrypted as its 8 little-endian bytes under
//! AES-128-GCM-SIV with a fresh nonce of 12 bytes and no associated data,
//! which gives 24 bytes: the 8 encrypted bytes and a tag of 16. Nonce and
//! ciphertext together are the 36 bytes that are stored.
//!
//! The cipher itself, the hash and the other outside pieces are in
//! [`super::primitives`] and [`super::encoding`]. The contracts here speak of
//! them through the names given there.
use super::encoding::{
    base64_encode, base64_standard, default_signature, from_json, generate_seed, json_array,
    json_key_bytes, message_bytes, seed_of_phrase, serialize_message, to_json, SIGNATURE_LEN,
};
use super::primitives::{
    aes_128_gcm_siv_open, aes_128_gcm_siv_seal, ct_eq, open, random_nonce, seal, sha3_512,
    sha3_512_digest, zeroize, zeros,
};
use crate::pubkey::Pubkey;
use rand::{CryptoRng, Rng, RngCore};
use solana_sdk::derivation_path::DerivationPath;
use vstd::bytes::{
    lemma_auto_spec_u64_to_from_le_bytes, spec_u64_from_le_bytes, spec_u64_to_le_bytes,
    u64_from_le_bytes, u64_to_le_bytes,
};
use vstd::prelude::*;
use vstd::slice::slice_subrange;
use vstd::utf8::encode_utf8;

verus! {

/// Number of bytes in a key.
pub const AE_KEY_LEN: usize = 16;

/// Number of bytes in a nonce.
pub const NONCE_LEN: usize = 12;

/// Number of bytes in an encrypted balance: the balance's 8 and the tag's 16.
pub const CIPHERTEXT_LEN: usize = 24;

/// Number of bytes in a stored ciphertext: nonce, then encrypted balance.
pub const AE_CIPHERTEXT_LEN: usize = 36;

/// A seed must have at least this many bytes.
pub const MINIMUM_SEED_LEN: usize = 16;

/// The label `AeKey`, which sets the message that a key is derived from apart
/// from any other message that the signer is asked to sign.
pub const AE_KEY_LABEL: [u8; 5] = [0x41, 0x65, 0x4b, 0x65, 0x79];

/// Why a key could not be derived.
#[derive(Clone, Copy, Debug, PartialEq, Eq)]
pub enum AuthenticatedEncryptionError {
    /// Keys are not derived along a derivation path.
    DerivationMethodNotSupported,
    /// The signer has no public key.
    PubkeyDoesNotExist,
    /// The seed has fewer than [`MINIMUM_SEED_LEN`] bytes.
    SeedLengthTooShort,
    /// The signature is the default one, all zero, as a signer returns it
    /// that cannot sign. It is no secret and makes no key.
    DefaultSignature,
}

/// Why the content of a key file gives no key: what the JSON reader said.
#[derive(Debug)]
pub struct KeyFileError(pub serde_json::Error);

impl AuthenticatedEncryptionError {
    /// The error in words.
    pub open spec fn message(self) -> Seq<char> {
        match self {
            AuthenticatedEncryptionError::DerivationMethodNotSupported => {
                "key derivation method not supported"@
            },
            AuthenticatedEncryptionError::PubkeyDoesNotExist => "pubkey does not exist"@,
            AuthenticatedEncryptionError::SeedLengthTooShort => "Seed is too short"@,
            AuthenticatedEncryptionError::DefaultSignature => "Rejecting default signature"@,
        }
    }

    /// The error in words.
    pub fn to_string(&self) -> (message: String)
        ensures
            message@ == self.message(),
    {
        match self {
            AuthenticatedEncryptionError::DerivationMethodNotSupported => {
                "key derivation method not supported".to_owned()
            },
            AuthenticatedEncryptionError::PubkeyDoesNotExist => "pubkey does not exist".to_owned(),
            AuthenticatedEncryptionError::SeedLengthTooShort => "Seed is too short".to_owned(),
            AuthenticatedEncryptionError::DefaultSignature => {
                "Rejecting default signature".to_owned()
            },
        }
    }
}

/// A nonce: never used twice under one key.
pub type Nonce = [u8; NONCE_LEN];

/// An encrypted balance with its tag.
pub type Ciphertext = [u8; CIPHERTEXT_LEN];

/// A ciphertext as two byte sequences.
pub struct AeCiphertextView {
    pub nonce: Seq<u8>,
    pub ciphertext: Seq<u8>,
}

/// The 36 bytes that stand for a ciphertext: nonce, then encrypted balance.
pub open spec fn wire_form(ct: AeCiphertextView) -> Seq<u8> {
    ct.nonce + ct.ciphertext
}

/// The ciphertext that bytes stand for: 36 bytes split after the twelfth,
/// and nothing else.
pub open spec fn parsed_wire_form(bytes: Seq<u8>) -> Option<AeCiphertextView> {
    if bytes.len() == AE_CIPHERTEXT_LEN {
        Some(
            AeCiphertextView {
                nonce: bytes.subrange(0, NONCE_LEN as int),
                ciphertext: bytes.subrange(NONCE_LEN as int, AE_CIPHERTEXT_LEN as int),
            },
        )
    } else {
        None
    }
}

/// What encrypting `amount` under `key` with `nonce` gives, if the cipher
/// takes it.
pub open spec fn encrypted(key: Seq<u8>, nonce: Seq<u8>, amount: u64) -> Option<Seq<u8>> {
    aes_128_gcm_siv_seal(key, nonce, spec_u64_to_le_bytes(amount))
}

/// The balance that `ct` holds for `key`, or `None` where `ct` was not made
/// under `key`.
pub open spec fn decrypted(key: Seq<u8>, ct: AeCiphertextView) -> Option<u64> {
    match aes_128_gcm_siv_open(key, ct.nonce, ct.ciphertext) {
        Some(plaintext) => Some(spec_u64_from_le_bytes(plaintext)),
        None => None,
    }
}

/// The key that 64 bytes of key material give: the first 16 of them.
pub open spec fn key_of_material(material: Seq<u8>) -> Seq<u8> {
    material.subrange(0, AE_KEY_LEN as int)
}

/// The key that a signature gives: its first 16 bytes, and none for the
/// all-zero signature.
pub open spec fn key_of_signature(signature: Seq<u8>) -> Option<Seq<u8>> {
    if signature == zeros(SIGNATURE_LEN as nat) {
        None
    } else {
        Some(key_of_material(signature))
    }
}

/// The key that a seed gives: the first 16 bytes of its SHA3-512 digest, and
/// none for a seed of fewer than 16 bytes.
pub open spec fn key_of_seed(seed: Seq<u8>) -> Option<Seq<u8>> {
    if seed.len() < MINIMUM_SEED_LEN {
        None
    } else {
        Some(key_of_material(sha3_512(seed)))
    }
}

/// The bytes of `bytes` as an array.
fn to_array<const N: usize>(bytes: &[u8]) -> (array: [u8; N])
    requires
        bytes@.len() == N,
    ensures
        array@ == bytes@,
{
    let mut array = [0u8; N];
    let mut i: usize = 0;
    while i < N
        invariant
            i <= N,
            bytes@.len() == N,
            forall|j: int| 0 <= j < i ==> array@[j] == bytes@[j],
        decreases N - i,
    {
        array[i] = bytes[i];
        i += 1;
    }
    assert(array@ =~= bytes@);
    array
}

struct AuthenticatedEncryption;

impl AuthenticatedEncryption {
    /// Encrypts `balance` under `key` with a nonce drawn from the operating
    /// system's random source.
    fn encrypt(key: &AeKey, balance: u64) -> (ct: AeCiphertext)
        ensures
            ct.is_encryption_of(*key, balance),
    {
        Self::encrypt_with_nonce(key, random_nonce(), balance)
    }

    /// Encrypts `balance` under `key` with `nonce`.
    fn encrypt_with_nonce(key: &AeKey, nonce: Nonce, balance: u64) -> (ct: AeCiphertext)
        ensures
            ct.nonce == nonce,
            ct.is_encryption_of(*key, balance),
    {
        let mut plaintext = u64_to_le_bytes(balance);

        // Nonce and balance have fixed lengths, so the cipher does not refuse;
        // if it ever did, `unwrap` below would stop the program.
        let sealed = seal(&key.0, &nonce, plaintext.as_slice());

        zeroize(plaintext.as_mut_slice());

        let ciphertext = sealed.unwrap();
        AeCiphertext { nonce, ciphertext: to_array::<24>(ciphertext.as_slice()) }
    }

    /// Decrypts `ct` under `key`.
    fn decrypt(key: &AeKey, ct: &AeCiphertext) -> (amount: Option<u64>)
        ensures
            amount == decrypted(key@, ct@),
            amount matches Some(balance) ==> ct.is_encryption_of(*key, balance),
            forall|balance: u64| #[trigger]
                ct.is_encryption_of(*key, balance) ==> amount == Some(balance),
    {
        match open(&key.0, &ct.nonce, ct.ciphertext.as_slice()) {
            Some(plaintext) => {
                let amount = u64_from_le_bytes(plaintext.as_slice());
                proof {
                    lemma_auto_spec_u64_to_from_le_bytes();
                }
                Some(amount)
            },
            None => None,
        }
    }
}

/// A secret key of 16 bytes.
#[derive(Debug)]
pub struct AeKey([u8; 16]);

impl View for AeKey {
    type V = Seq<u8>;

    /// The key's 16 bytes.
    closed spec fn view(&self) -> Seq<u8> {
        self.0@
    }
}

impl AeKey {
    /// The message that a signer signs to derive the key for the account at
    /// `address`: one instruction, addressed to `address`, that carries the
    /// label [`AE_KEY_LABEL`] and refers to no account, with the signer named
    /// as the one who pays.
    ///
    /// The bytes depend on the two addresses and on nothing else, so a signer
    /// that signs the same bytes in the same way always gives the same key,
    /// and they differ for any other signer or address.
    pub fn signing_message(signer_pubkey: &Pubkey, address: &Pubkey) -> (message: Vec<u8>)
        ensures
            message@ == message_bytes(address@, AE_KEY_LABEL@, signer_pubkey@),
    {
        let label = AE_KEY_LABEL;
        serialize_message(address, label.as_slice(), signer_pubkey)
    }

    /// Derives a key from the signature that a signer gave over
    /// [`AeKey::signing_message`].
    ///
    /// The key is the signature's first 16 bytes. A signer that cannot sign
    /// returns the default signature, all zero, which anybody can write down:
    /// it is rejected, and only it. The two are compared in constant time.
    pub fn new(signature: &[u8; 64]) -> (key: Result<AeKey, AuthenticatedEncryptionError>)
        ensures
            match key {
                Ok(key) => key_of_signature(signature@) == Some(key@),
                Err(error) => key_of_signature(signature@) is None
                    && error == AuthenticatedEncryptionError::DefaultSignature,
            },
    {
        let default_signature = default_signature();
        if ct_eq(signature.as_slice(), default_signature.as_slice()) {
            Err(AuthenticatedEncryptionError::DefaultSignature)
        } else {
            Ok(Self::from_key_material(signature))
        }
    }

    /// The key that 64 bytes of key material give, be they a signature or a
    /// digest: the first 16 of them.
    pub fn from_key_material(material: &[u8; 64]) -> (key: AeKey)
        ensures
            key@ == key_of_material(material@),
    {
        AeKey(to_array::<16>(slice_subrange(material.as_slice(), 0, 16)))
    }

    /// A key of 16 bytes drawn from `rng`, which is to be a cryptographically
    /// secure source.
    ///
    /// This is `rng.gen::<[u8; 16]>()`, which Verus does not read; nothing
    /// is claimed of the bytes.
    #[verifier::external_body]
    pub fn random<T: RngCore + CryptoRng>(rng: &mut T) -> (key: AeKey) {
        AeKey(rng.gen::<[u8; 16]>())
    }

    /// Encrypts `amount` with a fresh nonce.
    ///
    /// Whatever the nonce, [`AeKey::decrypt`] gives `amount` back.
    pub fn encrypt(&self, amount: u64) -> (ct: AeCiphertext)
        ensures
            ct.is_encryption_of(*self, amount),
    {
        AuthenticatedEncryption::encrypt(self, amount)
    }

    /// Encrypts `amount` with the nonce given. A nonce must not be used for
    /// two encryptions under one key.
    pub fn encrypt_with_nonce(&self, nonce: Nonce, amount: u64) -> (ct: AeCiphertext)
        ensures
            ct.nonce == nonce,
            ct.is_encryption_of(*self, amount),
    {
        AuthenticatedEncryption::encrypt_with_nonce(self, nonce, amount)
    }

    /// Decrypts `ct`: the balance, or `None` where `ct` does not bear the tag
    /// that this key gives it, be it made under another key or altered.
    ///
    /// Decryption is the inverse of encryption: `Some(balance)` comes back
    /// exactly where `ct` is the encryption of `balance` under this key with
    /// the nonce of `ct`, and `None` exactly where it is the encryption of no
    /// balance. So a ciphertext that was altered and kept its nonce never
    /// gives the balance that it held.
    pub fn decrypt(&self, ct: &AeCiphertext) -> (amount: Option<u64>)
        ensures
            amount == decrypted(self@, ct@),
            amount matches Some(balance) ==> ct.is_encryption_of(*self, balance),
            forall|balance: u64| #[trigger]
                ct.is_encryption_of(*self, balance) ==> amount == Some(balance),
    {
        AuthenticatedEncryption::decrypt(self, ct)
    }

    /// Derives a key from a seed of at least [`MINIMUM_SEED_LEN`] bytes: the
    /// first 16 bytes of the seed's SHA3-512 digest.
    pub fn from_seed(seed: &[u8]) -> (key: Result<AeKey, AuthenticatedEncryptionError>)
        ensures
            match key {
                Ok(key) => key_of_seed(seed@) == Some(key@),
                Err(error) => key_of_seed(seed@) is None
                    && error == AuthenticatedEncryptionError::SeedLengthTooShort,
            },
    {
        if seed.len() < MINIMUM_SEED_LEN {
            return Err(AuthenticatedEncryptionError::SeedLengthTooShort);
        }
        let digest = sha3_512_digest(seed);
        Ok(Self::from_key_material(&digest))
    }

    /// Keys are not derived along a derivation path: this fails on every
    /// input.
    pub fn from_seed_and_derivation_path(
        _seed: &[u8],
        _derivation_path: Option<DerivationPath>,
    ) -> (key: Result<AeKey, AuthenticatedEncryptionError>)
        ensures
            key matches Err(error) && error
                == AuthenticatedEncryptionError::DerivationMethodNotSupported,
    {
        Err(AuthenticatedEncryptionError::DerivationMethodNotSupported)
    }

    /// Derives a key from a seed phrase and a passphrase: the two are
    /// expanded to a seed of 64 bytes, and the seed gives the key as in
    /// [`AeKey::from_seed`]. This succeeds on every input.
    pub fn from_seed_phrase_and_passphrase(seed_phrase: &str, passphrase: &str) -> (key: Result<
        AeKey,
        AuthenticatedEncryptionError,
    >)
        ensures
            key matches Ok(key) && key_of_seed(seed_of_phrase(seed_phrase@, passphrase@)) == Some(
                key@,
            ),
    {
        let seed = generate_seed(seed_phrase, passphrase);
        Self::from_seed(seed.as_slice())
    }

    /// The key as it stands in a key file: a JSON array of its 16 bytes in
    /// decimal, with commas and without spaces.
    pub fn to_json(&self) -> (text: String)
        ensures
            text@ == json_array(self@),
    {
        to_json(self.0.as_slice()).unwrap()
    }

    /// Reads a key from the content of a key file: a JSON array of 16
    /// numbers from 0 to 255. Any other content is an error.
    ///
    /// What [`AeKey::to_json`] writes for a key is read back as that key.
    pub fn from_json(text: &[u8]) -> (key: Result<AeKey, KeyFileError>)
        ensures
            match key {
                Ok(key) => json_key_bytes(text@) == Some(key@),
                Err(_) => json_key_bytes(text@) is None,
            },
            forall|written: Seq<u8>|
                written.len() == AE_KEY_LEN && text@ == encode_utf8(
                    #[trigger] json_array(written),
                ) ==> (key matches Ok(key) && key@ == written),
    {
        match from_json(text) {
            Ok(bytes) => Ok(AeKey(bytes)),
            Err(error) => Err(KeyFileError(error)),
        }
    }

    /// Overwrites the key with zeros. To be called as soon as the key is no
    /// longer needed.
    pub fn zeroize(&mut self)
        ensures
            final(self)@ == zeros(AE_KEY_LEN as nat),
    {
        zeroize(&mut self.0);
    }
}

impl Drop for AeKey {
    /// The key is overwritten with zeros when it goes out of use.
    fn drop(&mut self)
        ensures
            final(self)@ == zeros(AE_KEY_LEN as nat),
        opens_invariants none
        no_unwind
    {
        zeroize(&mut self.0);
    }
}

/// A nonce and the balance encrypted with it.
#[derive(Clone, Copy, Debug)]
pub struct AeCiphertext {
    pub nonce: Nonce,
    pub ciphertext: Ciphertext,
}

impl View for AeCiphertext {
    type V = AeCiphertextView;

    open spec fn view(&self) -> AeCiphertextView {
        AeCiphertextView { nonce: self.nonce@, ciphertext: self.ciphertext@ }
    }
}

impl Default for AeCiphertext {
    /// The ciphertext of 36 zero bytes.
    fn default() -> (ct: AeCiphertext)
        ensures
            wire_form(ct@) == zeros(AE_CIPHERTEXT_LEN as nat),
    {
        let ct = AeCiphertext { nonce: [0u8; 12], ciphertext: [0u8; 24] };
        assert(wire_form(ct@) =~= zeros(AE_CIPHERTEXT_LEN as nat));
        ct
    }
}

impl AeCiphertext {
    /// Whether this is what encrypting `amount` under `key` with this nonce
    /// gives.
    pub open spec fn is_encryption_of(self, key: AeKey, amount: u64) -> bool {
        encrypted(key@, self.nonce@, amount) == Some(self.ciphertext@)
    }

    /// Decrypts this ciphertext under `key`, as [`AeKey::decrypt`] does.
    pub fn decrypt(&self, key: &AeKey) -> (amount: Option<u64>)
        ensures
            amount == decrypted(key@, self@),
            amount matches Some(balance) ==> self.is_encryption_of(*key, balance),
            forall|balance: u64| #[trigger]
                self.is_encryption_of(*key, balance) ==> amount == Some(balance),
    {
        AuthenticatedEncryption::decrypt(key, self)
    }

    /// The 36 bytes that are stored: nonce, then encrypted balance.
    pub fn to_bytes(&self) -> (bytes: [u8; 36])
        ensures
            bytes@ == wire_form(self@),
    {
        let mut buf = [0u8; 36];
        let mut i: usize = 0;
        while i < 12
            invariant
                i <= 12,
                forall|j: int| 0 <= j < i ==> buf@[j] == self.nonce@[j],
            decreases 12 - i,
        {
            buf[i] = self.nonce[i];
            i += 1;
        }
        let mut k: usize = 0;
        while k < 24
            invariant
                k <= 24,
                forall|j: int| 0 <= j < 12 ==> buf@[j] == self.nonce@[j],
                forall|j: int| 0 <= j < k ==> buf@[12 + j] == self.ciphertext@[j],
            decreases 24 - k,
        {
            buf[12 + k] = self.ciphertext[k];
            k += 1;
        }
        assert(buf@ =~= wire_form(self@));
        buf
    }

    /// Reads a ciphertext from its 36 bytes. `None` for any other number of
    /// bytes.
    pub fn from_bytes(bytes: &[u8]) -> (ct: Option<AeCiphertext>)
        ensures
            match ct {
                Some(ct) => parsed_wire_form(bytes@) == Some(ct@),
                None => parsed_wire_form(bytes@) is None,
            },
    {
        if bytes.len() != 36 {
            return None;
        }
        let nonce = to_array::<12>(slice_subrange(bytes, 0, 12));
        let ciphertext = to_array::<24>(slice_subrange(bytes, 12, 36));
        Some(AeCiphertext { nonce, ciphertext })
    }

    /// The ciphertext as text: its 36 bytes in base64, standard alphabet,
    /// padded.
    pub fn to_string(&self) -> (text: String)
        ensures
            text@ == base64_standard(wire_form(self@)),
    {
        let bytes = self.to_bytes();
        base64_encode(&bytes)
    }
}

/// A key has 16 bytes.
pub proof fn lemma_key_len(key: AeKey)
    ensures
        key@.len() == AE_KEY_LEN,
{
}

/// Under one key and one nonce a balance has one encryption: two ciphertexts
/// with the same nonce that both hold `amount` for `key` are the same.
pub proof fn lemma_one_encryption_per_nonce(
    key: AeKey,
    first: AeCiphertext,
    second: AeCiphertext,
    amount: u64,
)
    requires
        first.nonce@ == second.nonce@,
        first.is_encryption_of(key, amount),
        second.is_encryption_of(key, amount),
    ensures
        first.ciphertext@ == second.ciphertext@,
{
}

/// The message to sign tells the address and the signer: two messages are
/// the same only for the same address and the same signer.
pub proof fn lemma_signing_message_tells_its_addresses(
    signer: Pubkey,
    address: Pubkey,
    other_signer: Pubkey,
    other_address: Pubkey,
)
    requires
        message_bytes(address@, AE_KEY_LABEL@, signer@) == message_bytes(
            other_address@,
            AE_KEY_LABEL@,
            other_signer@,
        ),
    ensures
        signer@ == other_signer@,
        address@ == other_address@,
{
    let first = message_bytes(address@, AE_KEY_LABEL@, signer@);
    let second = message_bytes(other_address@, AE_KEY_LABEL@, other_signer@);
    assert(first[2] == (if signer@ == address@ { 0u8 } else { 1u8 }));
    assert(second[2] == (if other_signer@ == other_address@ { 0u8 } else { 1u8 }));
    assert(first.subrange(4, 36) =~= signer@);
    assert(second.subrange(4, 36) =~= other_signer@);
    if signer@ != address@ {
        assert(first.subrange(36, 68) =~= address@);
        assert(second.subrange(36, 68) =~= other_address@);
    }
}

/// A ciphertext is read back from its 36 bytes as it was.
pub proof fn lemma_from_bytes_inverts_to_bytes(ct: AeCiphertext)
    ensures
        wire_form(ct@).len() == AE_CIPHERTEXT_LEN,
        parsed_wire_form(wire_form(ct@)) == Some(ct@),
{
    let bytes = wire_form(ct@);
    assert(bytes.subrange(0, NONCE_LEN as int) =~= ct.nonce@);
    assert(bytes.subrange(NONCE_LEN as int, AE_CIPHERTEXT_LEN as int) =~= ct.ciphertext@);
}

/// Bytes stand for a ciphertext exactly when there are 36 of them, and they
/// are then the bytes of the ciphertext that they stand for.
pub proof fn lemma_parsed_wire_form(bytes: Seq<u8>)
    ensures
        parsed_wire_form(bytes) is Some <==> bytes.len() == AE_CIPHERTEXT_LEN,
        parsed_wire_form(bytes) matches Some(ct) ==> wire_form(ct) == bytes,
{
    if bytes.len() == AE_CIPHERTEXT_LEN {
        assert(bytes.subrange(0, NONCE_LEN as int) + bytes.subrange(
            NONCE_LEN as int,
            AE_CIPHERTEXT_LEN as int,
        ) =~= bytes);
    }
}

} // verus!
