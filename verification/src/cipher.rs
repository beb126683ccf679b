//! The stream cipher: RC4, as the `crypto` crate implements it.
//!
//! The key schedule and the keystream generator are the outside crate's. This
//! module gives the keystream a name, states how the cipher combines it with
//! the input, and proves from that statement that applying the cipher twice
//! under one key gives the input back.

use vstd::prelude::*;
use crypto::buffer::{RefReadBuffer, RefWriteBuffer};
use crypto::rc4::Rc4;
use crypto::symmetriccipher::{Decryptor, SymmetricCipherError};

verus! {

/// The error type of the `crypto` crate's symmetric ciphers, carried through
/// without looking inside.
#[verifier::external_type_specification]
#[verifier::external_body]
pub struct ExSymmetricCipherError(SymmetricCipherError);

/// Byte `index` of the RC4 keystream under `key`: what the generator of
/// `crypto::rc4::Rc4` emits at its call number `index`, counted from zero,
/// after the key schedule has run over `key`. It is a function of the key and
/// the position alone; its value is the outside crate's and is not stated
/// here.
pub uninterp spec fn rc4_keystream_byte(key: Seq<u8>, index: int) -> u8;

/// The RC4 transform of `data` under `key`: every byte XORed with the
/// keystream byte at its position.
pub open spec fn rc4_applied(key: Seq<u8>, data: Seq<u8>) -> Seq<u8> {
    Seq::new(data.len(), |i: int| data[i] ^ rc4_keystream_byte(key, i))
}

/// Runs `crypto::rc4::Rc4` over `input` under `key`, through `Rc4::new` and
/// its `Decryptor::decrypt` with a read buffer over `input` and a write
/// buffer of the same length.
///
/// Trusted, not proved. `Rc4::new` panics unless the key holds 1 to 256
/// bytes, hence the precondition. `decrypt` hands both buffers to the crate's
/// `symm_enc_or_dec`, which processes as many bytes as both buffers hold
/// (here all of them) and returns `Ok` on every path; `process` writes each
/// input byte XORed with the generator's next byte, and the generator reads
/// nothing but the state that `Rc4::new` built from the key.
#[verifier::external_body]
fn rc4_decrypt(key: &[u8], input: &[u8]) -> (out: Result<Vec<u8>, SymmetricCipherError>)
    requires
        1 <= key@.len() <= 256,
    ensures
        out is Ok,
        out matches Ok(bytes) ==> bytes@.len() == input@.len(),
        out matches Ok(bytes) ==> forall|i: int|
            0 <= i < input@.len() ==> bytes@[i] == input@[i] ^ rc4_keystream_byte(key@, i),
{
    let mut rc4 = Rc4::new(key);
    let mut read_buffer = RefReadBuffer::new(input);
    let mut buffer = vec![0; input.len()];
    let mut write_buffer = RefWriteBuffer::new(&mut buffer);
    match rc4.decrypt(&mut read_buffer, &mut write_buffer, true) {
        Ok(_) => Ok(buffer),
        Err(error) => Err(error),
    }
}

/// Decrypts `ciphertext` with RC4 under `key_material`. The same call
/// encrypts.
pub fn stream_decrypt(ciphertext: &[u8], key_material: &[u8]) -> (plaintext: Vec<u8>)
    requires
        1 <= key_material@.len() <= 256,
    ensures
        plaintext@ == rc4_applied(key_material@, ciphertext@),
        plaintext@.len() == ciphertext@.len(),
{
    match rc4_decrypt(key_material, ciphertext) {
        Ok(plaintext) => {
            assert(plaintext@ =~= rc4_applied(key_material@, ciphertext@));
            plaintext
        },
        Err(_) => unreached(),
    }
}

/// The RC4 transform keeps the length of its input.
pub proof fn lemma_rc4_keeps_length(key: Seq<u8>, data: Seq<u8>)
    ensures
        rc4_applied(key, data).len() == data.len(),
{
}

/// The RC4 transform is its own inverse: applied twice under one key, to
/// encrypt and then decrypt or to decrypt twice, it gives the input back.
pub proof fn lemma_rc4_involution(key: Seq<u8>, data: Seq<u8>)
    ensures
        rc4_applied(key, rc4_applied(key, data)) == data,
{
    let once = rc4_applied(key, data);
    let twice = rc4_applied(key, once);
    assert forall|i: int| 0 <= i < data.len() implies twice[i] == data[i] by {
        let d = data[i];
        let k = rc4_keystream_byte(key, i);
        assert((d ^ k) ^ k == d) by (bit_vector);
    }
    assert(twice =~= data);
}

} // verus!
