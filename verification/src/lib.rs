//! Decryption of content buffers keyed by a 64-bit identifier.
//!
//! The identifier is turned into twenty bytes of key material by a single
//! shortened round of a SHA-1 style compression function ([`digest`]), and the
//! key material drives an RC4 keystream that is XORed over the buffer
//! ([`cipher`], [`decrypt`]).

pub mod cipher;
pub mod decrypt;
pub mod digest;
pub mod endian;

pub use decrypt::{decrypt_content, derive_key_material, try_decrypt_content, DecryptError};
pub use digest::hash_sha1_5_rounds;
