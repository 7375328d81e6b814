use pulse_core::agreement::{agree, agree_for_conversation, agree_once, SharedSecret};
use pulse_core::error::{CryptoError, ErrorKind};
use pulse_core::identity::{generate_identity, public_of, KeyPair, Principal, PublicKey};

fn unhex32(text: &str) -> [u8; 32] {
    let mut out = [0u8; 32];
    for (i, b) in out.iter_mut().enumerate() {
        *b = u8::from_str_radix(&text[2 * i..2 * i + 2], 16).unwrap();
    }
    out
}

const ALICE_PRIVATE: &str = "77076d0a7318a57d3c16c17251b26645df4c2f87ebc0992ab177fba51db92c2a";
const ALICE_PUBLIC: &str = "8520f0098930a754748b7ddcb43ef75a0dbf3a0d26381af4eba4a98eaa9b4e6a";
const BOB_PRIVATE: &str = "5dab087e624a8a4b79e17f8b83800ee66f3bbb292618b6fd1c2f8b27ff88e0eb";
const BOB_PUBLIC: &str = "26a79c8cb22134a64f0a31e4d9be59acd3c6f92f41b9d62d207d5bb1cd3c217d";

#[test]
fn public_key_is_derived_from_the_private_key() {
    let alice = KeyPair::from_private_bytes(unhex32(ALICE_PRIVATE));
    assert_eq!(alice.public_key().as_bytes(), &unhex32(ALICE_PUBLIC));
    let bob = KeyPair::from_private_bytes(unhex32(BOB_PRIVATE));
    assert_eq!(public_of(&bob).to_vec(), unhex32(BOB_PUBLIC).to_vec());
}

#[test]
fn agreed_key_is_the_derivation_of_the_exchange() {
    let alice = KeyPair::from_private_bytes(unhex32(ALICE_PRIVATE));
    let bob = KeyPair::from_private_bytes(unhex32(BOB_PRIVATE));
    let expected = SharedSecret::from_array(unhex32(
        "bc43e14e339bad553cb4e1896be75d7657435910c4f62a03a253880acb654a95",
    ));
    let at_alice = agree(&alice, &unhex32(BOB_PUBLIC)).ok().unwrap();
    let at_bob = agree(&bob, &unhex32(ALICE_PUBLIC)).ok().unwrap();
    assert!(at_alice.same_as(&expected));
    assert!(at_bob.same_as(&expected));
    let raw = SharedSecret::from_array(unhex32(
        "4d2f902bfc40486eef3e00992236c754fbb0d2a92d3f061b418ce0706b15065a",
    ));
    assert!(!at_alice.same_as(&raw));
}

#[test]
fn conversations_of_one_pair_get_separate_keys() {
    let alice = KeyPair::from_private_bytes(unhex32(ALICE_PRIVATE));
    let bob = KeyPair::from_private_bytes(unhex32(BOB_PRIVATE));
    let expected = SharedSecret::from_array(unhex32(
        "5bf2d9abe668fadbe0d103fac67b08377d27a59475a9ea5398b70203e4f36206",
    ));
    let first = agree_for_conversation(&alice, &unhex32(BOB_PUBLIC), b"conversation-1")
        .ok()
        .unwrap();
    let mirrored = agree_for_conversation(&bob, &unhex32(ALICE_PUBLIC), b"conversation-1")
        .ok()
        .unwrap();
    let second = agree_for_conversation(&alice, &unhex32(BOB_PUBLIC), b"conversation-2")
        .ok()
        .unwrap();
    let none = agree(&alice, &unhex32(BOB_PUBLIC)).ok().unwrap();
    assert!(first.same_as(&expected));
    assert!(first.same_as(&mirrored));
    assert!(!first.same_as(&second));
    assert!(!first.same_as(&none));
}

#[test]
fn agreement_is_symmetric_for_generated_identities() {
    for _ in 0..20 {
        let a = generate_identity().ok().unwrap();
        let b = generate_identity().ok().unwrap();
        let at_a = agree(&a, b.public_key().as_bytes()).ok().unwrap();
        let at_b = agree(&b, a.public_key().as_bytes()).ok().unwrap();
        assert!(at_a.same_as(&at_b));
    }
}

#[test]
fn generated_identities_differ() {
    let a = generate_identity().ok().unwrap();
    let b = generate_identity().ok().unwrap();
    assert_ne!(a.public_key(), b.public_key());
}

#[test]
fn agreement_refuses_a_public_key_of_the_wrong_length() {
    let alice = KeyPair::from_private_bytes(unhex32(ALICE_PRIVATE));
    for len in [0usize, 31, 33, 64] {
        let err = agree(&alice, &vec![9u8; len]).err().unwrap();
        assert!(matches!(err, CryptoError::KeyGenerationError(_)));
    }
}

#[test]
fn agreement_refuses_a_public_key_that_contributes_nothing() {
    let alice = KeyPair::from_private_bytes(unhex32(ALICE_PRIVATE));
    let identity = [0u8; 32];
    let err = agree(&alice, &identity).err().unwrap();
    assert_eq!(err.kind(), ErrorKind::KeyGeneration);
    let mut order_two = [0u8; 32];
    order_two[0] = 1;
    let err = agree(&alice, &order_two).err().unwrap();
    assert_eq!(err.kind(), ErrorKind::KeyGeneration);
}

#[test]
fn public_key_is_read_from_exactly_32_bytes() {
    let key = PublicKey::from_bytes(&unhex32(BOB_PUBLIC)).unwrap();
    assert_eq!(key, PublicKey::from_array(unhex32(BOB_PUBLIC)));
    for len in [0usize, 31, 33] {
        let err = PublicKey::from_bytes(&vec![1u8; len]).unwrap_err();
        assert!(matches!(err, CryptoError::InvalidKeyFormat(_)));
    }
}

#[test]
fn shared_secrets_compare_by_their_bytes() {
    let a = SharedSecret::from_array([1u8; 32]);
    let b = SharedSecret::from_array([1u8; 32]);
    let mut other = [1u8; 32];
    other[31] = 2;
    assert!(a.same_as(&b));
    assert!(!a.same_as(&SharedSecret::from_array(other)));
    let r1 = SharedSecret::random().ok().unwrap();
    let r2 = SharedSecret::random().ok().unwrap();
    assert!(!r1.same_as(&r2));
}

#[test]
fn erased_secret_is_all_zeros() {
    let mut secret = SharedSecret::from_array([0xabu8; 32]);
    assert!(!secret.same_as(&SharedSecret::from_array([0u8; 32])));
    secret.erase();
    assert!(secret.same_as(&SharedSecret::from_array([0u8; 32])));
}

#[test]
fn one_time_agreement_is_mirrored_by_the_receiver() {
    let bob = KeyPair::from_private_bytes(unhex32(BOB_PRIVATE));
    let (first_public, first) = agree_once(bob.public_key().as_bytes(), b"chat-1").ok().unwrap();
    let (second_public, second) = agree_once(bob.public_key().as_bytes(), b"chat-1").ok().unwrap();
    assert_ne!(first_public, second_public);
    assert!(!first.same_as(&second));
    let at_bob = agree_for_conversation(&bob, first_public.as_bytes(), b"chat-1").ok().unwrap();
    assert!(at_bob.same_as(&first));
    let other = agree_for_conversation(&bob, second_public.as_bytes(), b"chat-1").ok().unwrap();
    assert!(other.same_as(&second));
    assert!(!other.same_as(&first));
}

#[test]
fn one_time_agreement_refuses_a_malformed_public_key() {
    assert_eq!(agree_once(&[0u8; 32], b"").err().unwrap().kind(), ErrorKind::KeyGeneration);
    assert_eq!(agree_once(&[1u8; 5], b"").err().unwrap().kind(), ErrorKind::KeyGeneration);
}

#[test]
fn principal_keeps_its_identifier_and_key() {
    let principal = Principal::register(7, &unhex32(BOB_PUBLIC)).unwrap();
    assert_eq!(principal.id(), 7);
    assert_eq!(principal.public_key().as_bytes(), &unhex32(BOB_PUBLIC));
    let err = Principal::register(7, &[1u8; 33]).unwrap_err();
    assert!(matches!(err, CryptoError::InvalidKeyFormat(_)));
}
