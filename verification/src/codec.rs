//! Base58 text form of 32-byte identities.

use vstd::prelude::*;

verus! {

/// Number of bytes in an identity.
pub const KEY_LEN: usize = 32;

/// A 32-byte identity of an account or of the program that owns it.
pub type FixedKey32 = [u8; 32];

/// The identities of a list, each as its bytes.
pub open spec fn key_views(keys: Seq<FixedKey32>) -> Seq<Seq<u8>> {
    Seq::new(keys.len(), |i: int| keys[i]@)
}

/// Why a text is not the base58 form of an identity.
#[derive(Clone, Copy, Debug, PartialEq, Eq, Structural)]
pub enum DecodeError {
    /// The text holds a character outside the base58 alphabet.
    InvalidCharacter,
    /// The text is base58, but does not stand for exactly 32 bytes.
    InvalidLength,
}

/// The Bitcoin base58 alphabet: digits and letters without `0`, `O`, `I`, `l`.
pub open spec fn is_base58_char(c: char) -> bool {
    ||| '1' <= c <= '9'
    ||| ('A' <= c <= 'Z' && c != 'I' && c != 'O')
    ||| ('a' <= c <= 'z' && c != 'l')
}

/// Every character of `text` is in the base58 alphabet.
pub open spec fn is_base58_text(text: Seq<char>) -> bool {
    forall|i: int| 0 <= i < text.len() ==> is_base58_char(#[trigger] text[i])
}

/// The bytes that `bs58` decodes a base58 text to.
pub uninterp spec fn base58_decoded(text: Seq<char>) -> Seq<u8>;

/// The text that `bs58` encodes bytes to.
pub uninterp spec fn base58_encoded(bytes: Seq<u8>) -> Seq<char>;

/// The error type of `bs58`'s decoder, carried through unread.
#[verifier::external_type_specification]
#[verifier::external_body]
pub struct ExBase58DecodeError(bs58::decode::Error);

/// `bs58::decode(text).into_vec()` with the default (Bitcoin) alphabet.
///
/// Trusted: the call succeeds exactly on texts made of alphabet characters
/// only (the decoder's other error needs a caller-provided buffer), and what it
/// returns on success depends on the text alone.
#[verifier::external_body]
fn base58_decode(text: &str) -> (r: Result<Vec<u8>, bs58::decode::Error>)
    ensures
        r is Ok <==> is_base58_text(text@),
        r matches Ok(bytes) ==> bytes@ == base58_decoded(text@),
{
    bs58::decode(text).into_vec()
}

/// `bs58::encode(key).into_string()` with the default (Bitcoin) alphabet.
///
/// Trusted: the text depends on the bytes alone, is made of alphabet
/// characters, and decodes to the bytes it was made from.
#[verifier::external_body]
fn base58_encode(key: &[u8; 32]) -> (text: String)
    ensures
        text@ == base58_encoded(key@),
        is_base58_text(text@),
        base58_decoded(text@) == key@,
{
    bs58::encode(key).into_string()
}

/// What decoding `text` as an identity gives: its 32 bytes, or the reason why
/// it is none.
pub open spec fn decode_spec(text: Seq<char>) -> Result<Seq<u8>, DecodeError> {
    if !is_base58_text(text) {
        Err(DecodeError::InvalidCharacter)
    } else if base58_decoded(text).len() != KEY_LEN {
        Err(DecodeError::InvalidLength)
    } else {
        Ok(base58_decoded(text))
    }
}

/// Whether two identities hold the same bytes.
pub fn keys_equal(a: &FixedKey32, b: &FixedKey32) -> (same: bool)
    ensures
        same == (a@ == b@),
{
    let mut i: usize = 0;
    while i < KEY_LEN
        invariant
            i <= KEY_LEN,
            forall|j: int| 0 <= j < i ==> a@[j] == b@[j],
        decreases KEY_LEN - i,
    {
        if a[i] != b[i] {
            return false;
        }
        i += 1;
    }
    assert(a@ =~= b@);
    true
}

/// Converts identities between their binary and their base58 form.
pub struct IdentityCodec;

impl IdentityCodec {
    /// Decodes a base58 text into an identity. The text must stand for exactly
    /// 32 bytes: shorter and longer values are rejected.
    pub fn decode(text: &str) -> (r: Result<FixedKey32, DecodeError>)
        ensures
            match r {
                Ok(key) => decode_spec(text@) == Ok::<Seq<u8>, DecodeError>(key@),
                Err(e) => decode_spec(text@) == Err::<Seq<u8>, DecodeError>(e),
            },
    {
        match base58_decode(text) {
            Err(_) => Err(DecodeError::InvalidCharacter),
            Ok(bytes) => {
                if bytes.len() != KEY_LEN {
                    return Err(DecodeError::InvalidLength);
                }
                let mut key: FixedKey32 = [0u8; 32];
                let mut i: usize = 0;
                while i < KEY_LEN
                    invariant
                        i <= KEY_LEN,
                        bytes@.len() == KEY_LEN,
                        forall|j: int| 0 <= j < i ==> key@[j] == bytes@[j],
                    decreases KEY_LEN - i,
                {
                    key[i] = bytes[i];
                    i += 1;
                }
                assert(key@ =~= bytes@);
                Ok(key)
            },
        }
    }

    /// Encodes an identity as base58 text. Decoding the text gives the
    /// identity back.
    pub fn encode(key: &FixedKey32) -> (text: String)
        ensures
            text@ == base58_encoded(key@),
            decode_spec(text@) == Ok::<Seq<u8>, DecodeError>(key@),
    {
        base58_encode(key)
    }
}

} // verus!
