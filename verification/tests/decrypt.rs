use content_decrypt::cipher::stream_decrypt;
use content_decrypt::{decrypt_content, derive_key_material, try_decrypt_content, DecryptError};

#[test]
fn test_decrypt() {
    assert_eq!(
        decrypt_content(
            &[
                0x69, 0x9c, 0xfe, 0xa2, 0x82, 0x2f, 0xb1, 0xbb, 0x65, 0x25, 0x0b, 0x06, 0xd9,
                0x1b
            ],
            1526557315773
        ),
        [220, 58, 102, 66, 0, 226, 22, 15, 147, 242, 107, 191, 145, 106]
    );
    assert_eq!(
        decrypt_content(&[0xfd, 0xb1, 0x49, 0x21, 0x0e, 0xe7, 0xba], 24244520652802),
        [147, 94, 215, 10, 198, 141, 253]
    );
    assert_eq!(
        decrypt_content(
            &[0xce, 0x92, 0x68, 0x37, 0x16, 0x7c, 0xe1, 0xb5, 0x7b, 0x81, 0x93, 0x93],
            2417911463008
        ),
        [82, 35, 56, 62, 82, 41, 60, 120, 14, 211, 153, 26]
    );
    assert_eq!(
        decrypt_content(
            &[0xca, 0x53, 0x24, 0xeb, 0x5d, 0xd6, 0x60, 0x28, 0x32, 0xc3, 0x68, 0x5d, 0x2a],
            731060601321
        ),
        [78, 174, 74, 77, 205, 55, 183, 224, 4, 190, 210, 248, 197]
    );
}

#[test]
fn key_material_exact_values() {
    assert_eq!(
        derive_key_material(1526557315773),
        [77, 221, 178, 90, 91, 1, 35, 198, 12, 237, 50, 226, 146, 227, 195, 86, 204, 12, 58, 199]
    );
    assert_eq!(
        derive_key_material(24244520652802),
        [
            149, 45, 109, 26, 247, 185, 150, 32, 149, 247, 176, 88, 232, 210, 215, 23, 29, 172, 66,
            35
        ]
    );
    assert_eq!(
        derive_key_material(1),
        [116, 135, 176, 16, 6, 103, 187, 125, 87, 42, 30, 222, 94, 77, 131, 39, 29, 8, 192, 235]
    );
    assert_eq!(
        derive_key_material(u64::MAX),
        [215, 244, 143, 144, 177, 98, 186, 125, 78, 40, 30, 222, 77, 77, 131, 231, 28, 8, 192, 107]
    );
}

#[test]
fn key_material_is_deterministic() {
    assert_eq!(derive_key_material(1526557315773), derive_key_material(1526557315773));
}

#[test]
fn decrypt_is_the_stream_cipher_under_the_key_material() {
    let data = b"hello world";
    let key = 1526557315773;
    assert_eq!(decrypt_content(data, key), stream_decrypt(data, &derive_key_material(key)));
    assert_eq!(
        decrypt_content(data, key),
        [221, 195, 244, 140, 237, 237, 208, 219, 132, 187, 4]
    );
}

#[test]
fn decrypt_is_deterministic() {
    let data = [0xfd, 0xb1, 0x49, 0x21, 0x0e, 0xe7, 0xba];
    assert_eq!(decrypt_content(&data, 24244520652802), decrypt_content(&data, 24244520652802));
}

#[test]
fn decrypt_keeps_the_length() {
    for length in [0usize, 1, 7, 14, 255, 256, 257, 4096] {
        let data = vec![0xc3; length];
        assert_eq!(decrypt_content(&data, 731060601321).len(), length);
    }
}

#[test]
fn decrypt_of_an_empty_buffer_is_empty() {
    assert_eq!(decrypt_content(&[], 1526557315773), Vec::<u8>::new());
}

#[test]
fn decrypt_twice_gives_the_buffer_back() {
    let data: Vec<u8> = (0..200).collect();
    for key in [1u64, 1526557315773, 24244520652802, u64::MAX] {
        let once = decrypt_content(&data, key);
        assert_ne!(once, data);
        assert_eq!(decrypt_content(&once, key), data);
    }
}

#[test]
fn encrypt_then_decrypt_gives_the_plaintext_back() {
    let plaintext = [32, 133, 16, 184, 32, 110, 94, 10, 162, 16, 137, 64, 58, 23];
    let ciphertext = decrypt_content(&plaintext, 1526557315773);
    assert_eq!(
        ciphertext,
        [0x95, 0x23, 0x88, 0x58, 0xa2, 0xa3, 0xf9, 0xbe, 0x54, 0xc7, 0xe9, 0xf9, 0x72, 0x66]
    );
    assert_eq!(decrypt_content(&ciphertext, 1526557315773), plaintext);
}

#[test]
fn decrypt_does_not_leave_the_input_buffer_changed() {
    let data = [0xfd, 0xb1, 0x49, 0x21, 0x0e, 0xe7, 0xba];
    let copy = data;
    let _ = decrypt_content(&data, 24244520652802);
    assert_eq!(data, copy);
}

#[test]
fn different_keys_give_different_plaintexts() {
    let data = [0u8; 16];
    assert_ne!(decrypt_content(&data, 1), decrypt_content(&data, 2));
}

#[test]
fn zero_key_is_rejected() {
    assert_eq!(try_decrypt_content(&[1, 2, 3], 0), Err(DecryptError::InvalidKey));
    assert_eq!(try_decrypt_content(&[], 0), Err(DecryptError::InvalidKey));
    assert_ne!(try_decrypt_content(&[1, 2, 3], 0), Ok(vec![1, 2, 3]));
}

#[test]
fn nonzero_key_is_accepted() {
    assert_eq!(
        try_decrypt_content(&[0xfd, 0xb1, 0x49, 0x21, 0x0e, 0xe7, 0xba], 24244520652802),
        Ok(vec![147, 94, 215, 10, 198, 141, 253])
    );
    assert_eq!(try_decrypt_content(&[], 1), Ok(vec![]));
    let data = [7u8; 33];
    assert_eq!(try_decrypt_content(&data, u64::MAX), Ok(decrypt_content(&data, u64::MAX)));
}
