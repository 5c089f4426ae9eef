//! Text and byte forms that other crates define.
//!
//! As in [`super::primitives`], each function makes one call into another
//! crate behind a contract that is taken on trust. Where a form is short, as
//! the JSON text of a byte array is, a spec function writes it down and the
//! contract says that the call returns it; where it is long, the result is
//! named.
use super::primitives::zeros;
use crate::pubkey::Pubkey;
use base64::prelude::BASE64_STANDARD;
use base64::Engine;
use solana_sdk::instruction::Instruction;
use solana_sdk::message::Message;
use solana_sdk::signature::Signature;
use solana_sdk::signer::keypair::generate_seed_from_seed_phrase_and_passphrase;
use vstd::prelude::*;
use vstd::utf8::encode_utf8;

verus! {

/// The error of the JSON reader. Nothing is known of a value.
#[verifier::external_type_specification]
#[verifier::external_body]
pub struct ExJsonError(serde_json::Error);

/// A path in a hierarchy of derived keys. Nothing is known of a value.
#[verifier::external_type_specification]
#[verifier::external_body]
pub struct ExDerivationPath(solana_sdk::derivation_path::DerivationPath);

/// Number of bytes in a signature.
pub const SIGNATURE_LEN: usize = 64;

/// Number of bytes in the seed that a seed phrase expands to.
pub const SEED_LEN: usize = 64;

/// The data of an instruction inside a message has fewer bytes than this
/// here: its length is then written as one byte.
pub const SHORT_DATA_LEN: usize = 0x80;

/// The base64 form of `bytes`: standard alphabet, padded.
pub uninterp spec fn base64_standard(bytes: Seq<u8>) -> Seq<char>;

/// The decimal digit for `d`, which is below ten.
pub open spec fn decimal_digit(d: int) -> char {
    seq!['0', '1', '2', '3', '4', '5', '6', '7', '8', '9'][d]
}

/// A byte in decimal, without leading zeros.
pub open spec fn decimal(byte: u8) -> Seq<char> {
    if byte < 10 {
        seq![decimal_digit(byte as int)]
    } else if byte < 100 {
        seq![decimal_digit(byte as int / 10), decimal_digit(byte as int % 10)]
    } else {
        seq![
            decimal_digit(byte as int / 100),
            decimal_digit(byte as int / 10 % 10),
            decimal_digit(byte as int % 10),
        ]
    }
}

/// The bytes in decimal, with a comma between one and the next.
pub open spec fn decimals(bytes: Seq<u8>) -> Seq<char>
    decreases bytes.len(),
{
    if bytes.len() == 0 {
        Seq::empty()
    } else if bytes.len() == 1 {
        decimal(bytes[0])
    } else {
        decimals(bytes.drop_last()) + seq![','] + decimal(bytes.last())
    }
}

/// The JSON text for an array of the numbers in `bytes`, as compact as JSON
/// allows: `[1,2,3]`.
pub open spec fn json_array(bytes: Seq<u8>) -> Seq<char> {
    seq!['['] + decimals(bytes) + seq![']']
}

/// The 16 bytes that a JSON text lists, or `None` where the text is not a
/// JSON array of 16 numbers from 0 to 255.
pub uninterp spec fn json_key_bytes(text: Seq<u8>) -> Option<Seq<u8>>;

/// The 64-byte seed that a seed phrase and a passphrase expand to.
pub uninterp spec fn seed_of_phrase(seed_phrase: Seq<char>, passphrase: Seq<char>) -> Seq<u8>;

/// The serialized message that holds one instruction, for `program_id`, with
/// `data` and without accounts, and names `payer` as the one who pays.
///
/// In order: the number of signers, one; of signers that are only read,
/// none; of other accounts that are only read, one, the program, unless the
/// payer is the program; the number of addresses and the addresses, the
/// payer first; the recent block hash, which is not set; the number of
/// instructions, one; the instruction: where the program stands among the
/// addresses, the number of its accounts, none, the length of its data, and
/// the data.
pub open spec fn message_bytes(program_id: Seq<u8>, data: Seq<u8>, payer: Seq<u8>) -> Seq<u8>
    recommends
        program_id.len() == 32,
        payer.len() == 32,
        data.len() < SHORT_DATA_LEN,
{
    if payer == program_id {
        seq![1u8, 0, 0, 1] + payer + zeros(32) + seq![1u8, 0, 0, data.len() as u8] + data
    } else {
        seq![1u8, 0, 1, 2] + payer + program_id + zeros(32) + seq![1u8, 1, 0, data.len() as u8]
            + data
    }
}

/// `BASE64_STANDARD.encode(bytes)`.
///
/// Trusted: the text is a function of the bytes, named [`base64_standard`].
#[verifier::external_body]
pub(crate) fn base64_encode(bytes: &[u8; 36]) -> (text: String)
    ensures
        text@ == base64_standard(bytes@),
{
    BASE64_STANDARD.encode(bytes)
}

/// `serde_json::to_string` on a vector of bytes.
///
/// Trusted: writing a list of numbers does not fail, and the text is the
/// compact one, [`json_array`]. The writer's error is dropped.
#[verifier::external_body]
pub(crate) fn to_json(bytes: &[u8]) -> (json: Option<String>)
    ensures
        match json {
            Some(text) => text@ == json_array(bytes@),
            None => false,
        },
{
    serde_json::to_string(&bytes.to_vec()).ok()
}

/// `serde_json::from_reader` towards an array of 16 bytes, reading from
/// memory.
///
/// Trusted: whether the text is accepted, and the bytes it then gives, are a
/// function of the text, named [`json_key_bytes`]; and the reader reads what
/// [`to_json`] writes: a text that is the [`json_array`] of some bytes gives
/// those bytes if it gives any, and the text of 16 bytes is not refused.
#[verifier::external_body]
pub(crate) fn from_json(text: &[u8]) -> (bytes: Result<[u8; 16], serde_json::Error>)
    ensures
        match bytes {
            Ok(array) => json_key_bytes(text@) == Some(array@),
            Err(_) => json_key_bytes(text@) is None,
        },
        match bytes {
            Ok(array) => forall|written: Seq<u8>|
                text@ == encode_utf8(#[trigger] json_array(written)) ==> written == array@,
            Err(_) => forall|written: Seq<u8>|
                written.len() == 16 ==> text@ != encode_utf8(#[trigger] json_array(written)),
        },
{
    serde_json::from_reader(text)
}

/// `generate_seed_from_seed_phrase_and_passphrase`.
///
/// Trusted: the seed is a function of the two texts, named
/// [`seed_of_phrase`], and has [`SEED_LEN`] bytes.
#[verifier::external_body]
pub(crate) fn generate_seed(seed_phrase: &str, passphrase: &str) -> (seed: Vec<u8>)
    ensures
        seed@ == seed_of_phrase(seed_phrase@, passphrase@),
        seed@.len() == SEED_LEN,
{
    generate_seed_from_seed_phrase_and_passphrase(seed_phrase, passphrase)
}

/// `Signature::default()`, as its bytes: the signature that a signer returns
/// that cannot sign.
///
/// Trusted: the bytes are [`SIGNATURE_LEN`] zeros.
#[verifier::external_body]
pub(crate) fn default_signature() -> (signature: [u8; 64])
    ensures
        signature@ == zeros(SIGNATURE_LEN as nat),
{
    Signature::default().into()
}

/// `Message::new` on the one instruction `Instruction::new_with_bytes(program_id, data, vec![])`
/// with `payer` to pay, then `serialize`.
///
/// Trusted: the bytes are those of [`message_bytes`]. Data of
/// [`SHORT_DATA_LEN`] bytes or more is left out: its length takes more than
/// one byte.
#[verifier::external_body]
pub(crate) fn serialize_message(program_id: &Pubkey, data: &[u8], payer: &Pubkey) -> (bytes: Vec<u8>)
    requires
        data@.len() < SHORT_DATA_LEN,
    ensures
        bytes@ == message_bytes(program_id@, data@, payer@),
{
    let instruction = Instruction::new_with_bytes(program_id.0.into(), data, Vec::new());
    Message::new(&[instruction], Some(&payer.0.into())).serialize()
}

} // verus!
