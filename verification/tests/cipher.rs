use content_decrypt::cipher::stream_decrypt;

#[test]
fn stream_decrypt_known_answers() {
    assert_eq!(
        stream_decrypt(b"Plaintext", b"Key"),
        [0xBB, 0xF3, 0x16, 0xE8, 0xD9, 0x40, 0xAF, 0x0A, 0xD3]
    );
    assert_eq!(stream_decrypt(b"pedia", b"Wiki"), [0x10, 0x21, 0xBF, 0x04, 0x20]);
    assert_eq!(
        stream_decrypt(b"Attack at dawn", b"Secret"),
        [0x45, 0xA0, 0x1F, 0x64, 0x5F, 0xC3, 0x5B, 0x38, 0x35, 0x52, 0x54, 0x4B, 0x9B, 0xF5]
    );
}

#[test]
fn stream_decrypt_of_zeros_is_the_keystream() {
    assert_eq!(stream_decrypt(&[0; 8], &[1]), [6, 8, 14, 14, 24, 32, 41, 41]);
    let key: Vec<u8> = (0..=255).collect();
    assert_eq!(stream_decrypt(&[0; 4], &key), [94, 46, 183, 178]);
}

#[test]
fn stream_decrypt_xors_the_keystream_byte_by_byte() {
    let key = [9, 205, 85, 97, 53];
    let data = [1u8, 2, 3, 250, 251, 252, 0, 255];
    let keystream = stream_decrypt(&[0; 8], &key);
    let output = stream_decrypt(&data, &key);
    for i in 0..data.len() {
        assert_eq!(output[i], data[i] ^ keystream[i]);
    }
}

#[test]
fn stream_decrypt_does_not_hand_the_input_back() {
    let data = b"Attack at dawn";
    assert_ne!(stream_decrypt(data, b"Secret"), data);
}

#[test]
fn stream_decrypt_keeps_the_length() {
    for length in [0usize, 1, 2, 255, 256, 257, 1000] {
        let data = vec![0x5a; length];
        assert_eq!(stream_decrypt(&data, b"Key").len(), length);
    }
}

#[test]
fn stream_decrypt_of_nothing_is_nothing() {
    assert_eq!(stream_decrypt(&[], b"Key"), Vec::<u8>::new());
}

#[test]
fn stream_decrypt_twice_gives_the_input_back() {
    let data: Vec<u8> = (0..=255).collect();
    let once = stream_decrypt(&data, b"Secret");
    assert_ne!(once, data);
    assert_eq!(stream_decrypt(&once, b"Secret"), data);
}

#[test]
fn stream_decrypt_is_deterministic() {
    assert_eq!(stream_decrypt(b"Plaintext", b"Key"), stream_decrypt(b"Plaintext", b"Key"));
}

#[test]
fn stream_decrypt_takes_keys_of_one_to_256_bytes() {
    let longest = [0xa5u8; 256];
    let out = stream_decrypt(b"abc", &longest);
    assert_eq!(stream_decrypt(&out, &longest), b"abc");
    let out = stream_decrypt(b"abc", &[0]);
    assert_eq!(stream_decrypt(&out, &[0]), b"abc");
}
