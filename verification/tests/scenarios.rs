use pulse_core::agreement::agree;
use pulse_core::cipher::{open, seal, EncryptedMessage};
use pulse_core::error::CryptoError;
use pulse_core::identity::generate_identity;
use pulse_core::signing::{sign, verify, SigningKeyPair};

#[test]
fn alice_seals_hello_bob_and_bob_opens_it() {
    let alice = generate_identity().ok().unwrap();
    let bob = generate_identity().ok().unwrap();

    let at_alice = agree(&alice, bob.public_key().as_bytes()).ok().unwrap();
    let envelope = seal(&at_alice, b"hello bob", None).unwrap();

    let received = EncryptedMessage::from_parts(
        envelope.nonce().to_vec(),
        envelope.ciphertext().to_vec(),
        envelope.associated_data().map(|data| data.to_vec()),
    );
    let at_bob = agree(&bob, alice.public_key().as_bytes()).ok().unwrap();
    let plaintext = open(&at_bob, &received).unwrap();
    assert_eq!(plaintext, b"hello bob");
}

#[test]
fn bob_cannot_open_with_a_secret_derived_with_a_third_party() {
    let alice = generate_identity().ok().unwrap();
    let bob = generate_identity().ok().unwrap();
    let carol = generate_identity().ok().unwrap();

    let at_alice = agree(&alice, bob.public_key().as_bytes()).ok().unwrap();
    let envelope = seal(&at_alice, b"hello bob", None).unwrap();

    let with_carol = agree(&bob, carol.public_key().as_bytes()).ok().unwrap();
    let err = open(&with_carol, &envelope).unwrap_err();
    assert!(matches!(err, CryptoError::DecryptionError(_)));
}

#[test]
fn a_sealed_and_signed_message_is_checked_by_one_who_cannot_decrypt() {
    let alice = generate_identity().ok().unwrap();
    let bob = generate_identity().ok().unwrap();
    let alice_signing = SigningKeyPair::generate().ok().unwrap();

    let key = agree(&alice, bob.public_key().as_bytes()).ok().unwrap();
    let envelope = seal(&key, b"hello bob", Some(b"conversation 7")).unwrap();
    let signature = sign(&alice_signing, envelope.ciphertext());

    let relay_sees = envelope.ciphertext().to_vec();
    assert!(verify(alice_signing.public_key().as_bytes(), &relay_sees, &signature).unwrap());
}
