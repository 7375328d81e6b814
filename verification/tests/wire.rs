use pulse_core::agreement::SharedSecret;
use pulse_core::cipher::{open, seal, seal_with_nonce, EncryptedMessage};
use pulse_core::envelope::{envelope_from_bytes, envelope_to_bytes};
use pulse_core::error::ErrorKind;
use pulse_core::hex::{hex_decode, hex_encode};
use pulse_core::manager::CryptoManager;

fn sample(associated_data: Option<Vec<u8>>) -> EncryptedMessage {
    EncryptedMessage::from_parts(vec![1, 2, 3], vec![0xaa, 0xbb], associated_data)
}

#[test]
fn hex_encode_writes_two_lowercase_digits_per_byte() {
    assert_eq!(hex_encode(&[]), "");
    assert_eq!(hex_encode(&[0x00, 0x09, 0x0a, 0x0f, 0x10, 0x9a, 0xa9, 0xff]), "00090a0f109aa9ff");
    let all: Vec<u8> = (0..=255u8).collect();
    let text = hex_encode(&all);
    assert_eq!(text.len(), 512);
    assert!(text.starts_with("000102030405060708090a0b0c0d0e0f10"));
    assert!(text.ends_with("fdfeff"));
}

#[test]
fn hex_decode_inverts_hex_encode() {
    let all: Vec<u8> = (0..=255u8).collect();
    assert_eq!(hex_decode(&hex_encode(&all)), Some(all));
    assert_eq!(hex_decode(""), Some(vec![]));
    assert_eq!(hex_decode("00ff7f80"), Some(vec![0x00, 0xff, 0x7f, 0x80]));
}

#[test]
fn hex_decode_refuses_what_is_not_canonical() {
    let refused = ["0", "abc", "0g", "g0", "0A", "FF", " 00", "00 ", "0x00", "é0", "00é", "/0", ":0", "`0", "{0"];
    for text in refused {
        assert_eq!(hex_decode(text), None, "{}", text);
    }
}

#[test]
fn envelope_is_written_with_length_prefixes_and_a_flag() {
    let none = envelope_to_bytes(&sample(None));
    assert_eq!(
        none,
        vec![3, 0, 0, 0, 0, 0, 0, 0, 1, 2, 3, 2, 0, 0, 0, 0, 0, 0, 0, 0xaa, 0xbb, 0]
    );
    let some = envelope_to_bytes(&sample(Some(vec![9])));
    assert_eq!(
        some,
        vec![
            3, 0, 0, 0, 0, 0, 0, 0, 1, 2, 3, 2, 0, 0, 0, 0, 0, 0, 0, 0xaa, 0xbb, 1, 1, 0, 0, 0,
            0, 0, 0, 0, 9
        ]
    );
    let empty = envelope_to_bytes(&sample(Some(vec![])));
    assert_eq!(empty.len(), 22 + 8);
    assert_eq!(empty[21], 1);
}

#[test]
fn envelope_is_read_back_from_its_wire_form() {
    let cases = [
        sample(None),
        sample(Some(vec![])),
        sample(Some(vec![9, 8, 7])),
        EncryptedMessage::from_parts(vec![], vec![], None),
        EncryptedMessage::from_parts(vec![0; 12], vec![7; 300], Some(vec![1; 70000])),
    ];
    for envelope in cases {
        let wire = envelope_to_bytes(&envelope);
        assert_eq!(envelope_from_bytes(&wire), Some(envelope));
    }
}

#[test]
fn sealed_envelope_survives_the_wire() {
    let key = SharedSecret::from_array([4u8; 32]);
    let envelope = seal(&key, b"hello bob", Some(b"conversation 7")).unwrap();
    let received = envelope_from_bytes(&envelope_to_bytes(&envelope)).unwrap();
    assert_eq!(received, envelope);
    assert_eq!(open(&key, &received).unwrap(), b"hello bob");
}

#[test]
fn envelope_reader_refuses_every_truncation_and_extension() {
    let wire = envelope_to_bytes(&sample(Some(vec![9, 8])));
    for len in 0..wire.len() {
        assert_eq!(envelope_from_bytes(&wire[..len]), None, "length {}", len);
    }
    let mut longer = wire.clone();
    longer.push(0);
    assert_eq!(envelope_from_bytes(&longer), None);
    let mut bare = envelope_to_bytes(&sample(None));
    bare.push(0);
    assert_eq!(envelope_from_bytes(&bare), None);
}

#[test]
fn envelope_reader_refuses_a_bad_flag_or_length() {
    let wire = envelope_to_bytes(&sample(None));
    let mut bad_flag = wire.clone();
    bad_flag[21] = 2;
    assert_eq!(envelope_from_bytes(&bad_flag), None);
    let mut flag_without_data = wire.clone();
    flag_without_data[21] = 1;
    assert_eq!(envelope_from_bytes(&flag_without_data), None);
    let mut huge = wire.clone();
    huge[7] = 0xff;
    assert_eq!(envelope_from_bytes(&huge), None);
    let mut wrong_len = wire.clone();
    wrong_len[0] = 4;
    assert_eq!(envelope_from_bytes(&wrong_len), None);
    assert_eq!(envelope_from_bytes(&[0xff; 8]), None);
}

#[test]
fn manager_text_round_trip() {
    let manager = CryptoManager::new().unwrap();
    for content in ["", "hello bob", "zażółć gęślą jaźń \u{1f512}"] {
        let text = manager.encrypt_message(content).unwrap();
        assert!(text.bytes().all(|b| b.is_ascii_hexdigit() && !b.is_ascii_uppercase()));
        assert_eq!(text.len(), 2 * (8 + 12 + 8 + content.len() + 16 + 1));
        assert_ne!(text, content);
        assert_eq!(manager.decrypt_message(&text).unwrap(), content);
    }
}

#[test]
fn manager_text_is_the_hex_of_the_wire_form() {
    let key = SharedSecret::from_array([0u8; 32]);
    let envelope = seal_with_nonce(&key, [0u8; 12], &[0u8; 16], None).unwrap();
    let text = hex_encode(&envelope_to_bytes(&envelope));
    assert_eq!(
        text,
        "0c00000000000000000000000000000000000000\
         2000000000000000cea7403d4d606b6e074ec5d3baf39d18d0d1c8a799996bf0265b98b5d48ab919\
         00"
    );
    let manager = CryptoManager::with_key(SharedSecret::from_array([0u8; 32]));
    assert_eq!(manager.decrypt_message(&text).unwrap(), "\0".repeat(16));
}

#[test]
fn manager_refuses_text_that_is_no_envelope() {
    let manager = CryptoManager::new().unwrap();
    for text in ["", "hello", "zz", "00", "0c000000"] {
        let err = manager.decrypt_message(text).unwrap_err();
        assert_eq!(err.kind(), ErrorKind::InvalidMessageFormat, "{}", text);
    }
}

#[test]
fn manager_fails_to_open_under_another_key_or_after_tampering() {
    let manager = CryptoManager::with_key(SharedSecret::from_array([1u8; 32]));
    let other = CryptoManager::with_key(SharedSecret::from_array([2u8; 32]));
    let text = manager.encrypt_message("hello bob").unwrap();
    assert_eq!(other.decrypt_message(&text).unwrap_err().kind(), ErrorKind::Decryption);
    let position = 2 * (8 + 12 + 8);
    let digit = if &text[position..position + 1] == "0" { "1" } else { "0" };
    let tampered = format!("{}{}{}", &text[..position], digit, &text[position + 1..]);
    assert_eq!(manager.decrypt_message(&tampered).unwrap_err().kind(), ErrorKind::Decryption);
}

#[test]
fn manager_refuses_a_plaintext_that_is_not_utf8() {
    let key = SharedSecret::from_array([1u8; 32]);
    let envelope = seal(&key, &[0xff, 0xfe], None).unwrap();
    let text = hex_encode(&envelope_to_bytes(&envelope));
    let manager = CryptoManager::with_key(SharedSecret::from_array([1u8; 32]));
    let err = manager.decrypt_message(&text).unwrap_err();
    assert_eq!(err.kind(), ErrorKind::InvalidMessageFormat);
}
