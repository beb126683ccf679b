//! Decryption of a buffer under a 64-bit encryption key.

use vstd::prelude::*;
use crate::cipher::{lemma_rc4_involution, rc4_applied, stream_decrypt};
use crate::digest::{digest, hash_sha1_5_rounds};
use crate::endian::{u64_le_bytes, u64_to_le, words_le_bytes, words_to_le};

verus! {

/// The reason why a buffer was not decrypted.
#[derive(Debug, Clone, Copy, PartialEq, Eq)]
pub enum DecryptError {
    /// The encryption key is zero, which stands for "no key".
    InvalidKey,
}

/// The twenty bytes of key material derived from an encryption key: the
/// little-endian bytes of the digest of the key's eight little-endian bytes.
pub open spec fn key_material(encryption_key: u64) -> Seq<u8> {
    words_le_bytes(digest(u64_le_bytes(encryption_key)))
}

/// The content of `buffer` decrypted under `encryption_key`: the RC4
/// transform of the buffer under the key material derived from the key.
pub open spec fn decrypted(buffer: Seq<u8>, encryption_key: u64) -> Seq<u8> {
    rc4_applied(key_material(encryption_key), buffer)
}

/// What decrypting `buffer` under `encryption_key` comes to: the failure
/// `InvalidKey` under the key zero, the decrypted content under any other
/// key.
pub open spec fn decrypt_outcome(buffer: Seq<u8>, encryption_key: u64) -> Result<
    Seq<u8>,
    DecryptError,
> {
    if encryption_key == 0 {
        Err(DecryptError::InvalidKey)
    } else {
        Ok(decrypted(buffer, encryption_key))
    }
}

/// Derives the key material of an encryption key. The result depends on the
/// key alone.
pub fn derive_key_material(encryption_key: u64) -> (material: [u8; 20])
    ensures
        material@ == key_material(encryption_key),
{
    let key_bytes = u64_to_le(encryption_key);
    let words = hash_sha1_5_rounds(key_bytes.as_slice());
    words_to_le(&words)
}

/// Decrypts `buffer` under `encryption_key` into a new buffer of the same
/// length. The result depends on the bytes of the buffer and on the key
/// alone.
///
/// The key must not be zero: zero stands for "no key", and there is nothing
/// to decrypt with. Callers that cannot rule it out call
/// [`try_decrypt_content`].
pub fn decrypt_content(buffer: &[u8], encryption_key: u64) -> (plaintext: Vec<u8>)
    requires
        encryption_key != 0,
    ensures
        plaintext@ == decrypted(buffer@, encryption_key),
        plaintext@.len() == buffer@.len(),
{
    let material = derive_key_material(encryption_key);
    stream_decrypt(buffer, material.as_slice())
}

/// Decrypts `buffer` under `encryption_key`, or reports the key as invalid
/// when it is zero.
pub fn try_decrypt_content(buffer: &[u8], encryption_key: u64) -> (out: Result<
    Vec<u8>,
    DecryptError,
>)
    ensures
        encryption_key == 0 <==> out == Err::<Vec<u8>, DecryptError>(DecryptError::InvalidKey),
        encryption_key != 0 <==> out is Ok,
        out matches Ok(plaintext) ==> plaintext@ == decrypted(buffer@, encryption_key)
            && plaintext@.len() == buffer@.len(),
        match out {
            Ok(plaintext) => decrypt_outcome(buffer@, encryption_key) == Ok::<
                Seq<u8>,
                DecryptError,
            >(plaintext@),
            Err(error) => decrypt_outcome(buffer@, encryption_key) == Err::<Seq<u8>, DecryptError>(
                error,
            ),
        },
{
    if encryption_key == 0 {
        Err(DecryptError::InvalidKey)
    } else {
        Ok(decrypt_content(buffer, encryption_key))
    }
}

/// Decryption fails under the key zero and under no other key: whatever the
/// buffer, the outcome under zero is `InvalidKey`, never a buffer, and so
/// never the input handed back unchanged.
pub proof fn lemma_zero_key_is_rejected(buffer: Seq<u8>, encryption_key: u64)
    ensures
        decrypt_outcome(buffer, 0) == Err::<Seq<u8>, DecryptError>(DecryptError::InvalidKey),
        decrypt_outcome(buffer, 0) != Ok::<Seq<u8>, DecryptError>(buffer),
        decrypt_outcome(buffer, encryption_key) is Err <==> encryption_key == 0,
        encryption_key != 0 ==> decrypt_outcome(buffer, encryption_key) == Ok::<
            Seq<u8>,
            DecryptError,
        >(decrypted(buffer, encryption_key)),
{
}

/// Decryption keeps the length of the buffer.
pub proof fn lemma_decrypted_keeps_length(buffer: Seq<u8>, encryption_key: u64)
    ensures
        decrypted(buffer, encryption_key).len() == buffer.len(),
{
}

/// Decrypting twice under one key gives the buffer back; so does encrypting
/// and then decrypting, encryption being the same transform.
pub proof fn lemma_decrypted_involution(buffer: Seq<u8>, encryption_key: u64)
    ensures
        decrypted(decrypted(buffer, encryption_key), encryption_key) == buffer,
{
    lemma_rc4_involution(key_material(encryption_key), buffer);
}

} // verus!
