use pulse_core::agreement::agree_for_conversation;
use pulse_core::cipher::{open, seal_with_nonce};
use pulse_core::conversations::Conversations;
use pulse_core::error::ErrorKind;
use pulse_core::identity::KeyPair;

fn pair(byte: u8) -> KeyPair {
    KeyPair::from_private_bytes([byte; 32])
}

#[test]
fn conversation_partners_read_each_other() {
    let mut alice = Conversations::new(pair(1));
    let mut bob = Conversations::new(pair(2));
    let alice_public = alice.public_key();
    let bob_public = bob.public_key();
    let envelope =
        alice.seal_for(bob_public.as_bytes(), b"chat-1", b"hello bob", Some(b"chat-1")).unwrap();
    let plaintext = bob.open_from(alice_public.as_bytes(), b"chat-1", &envelope).unwrap();
    assert_eq!(plaintext, b"hello bob");
    let reply = bob.seal_for(alice_public.as_bytes(), b"chat-1", b"hello alice", None).unwrap();
    assert_eq!(
        alice.open_from(bob_public.as_bytes(), b"chat-1", &reply).unwrap(),
        b"hello alice"
    );
}

#[test]
fn conversation_key_is_the_agreed_key() {
    let mut alice = Conversations::new(pair(1));
    let bob_public = pair(2).public_key();
    let envelope = alice.seal_for(bob_public.as_bytes(), b"chat-1", b"hello bob", None).unwrap();
    let key = agree_for_conversation(&pair(2), pair(1).public_key().as_bytes(), b"chat-1")
        .ok()
        .unwrap();
    assert_eq!(open(&key, &envelope).unwrap(), b"hello bob");
    let made_elsewhere = seal_with_nonce(&key, [9u8; 12], b"from outside", None).unwrap();
    assert_eq!(
        alice.open_from(bob_public.as_bytes(), b"chat-1", &made_elsewhere).unwrap(),
        b"from outside"
    );
}

#[test]
fn conversations_do_not_share_keys() {
    let mut alice = Conversations::new(pair(1));
    let mut bob = Conversations::new(pair(2));
    let mut carol = Conversations::new(pair(3));
    let alice_public = alice.public_key();
    let bob_public = bob.public_key();
    let envelope = alice.seal_for(bob_public.as_bytes(), b"chat-1", b"hello bob", None).unwrap();
    let other_chat = bob.open_from(alice_public.as_bytes(), b"chat-2", &envelope).unwrap_err();
    assert_eq!(other_chat.kind(), ErrorKind::Decryption);
    let third_party = carol.open_from(alice_public.as_bytes(), b"chat-1", &envelope).unwrap_err();
    assert_eq!(third_party.kind(), ErrorKind::Decryption);
    let wrong_peer = bob.open_from(carol.public_key().as_bytes(), b"chat-1", &envelope);
    assert_eq!(wrong_peer.unwrap_err().kind(), ErrorKind::Decryption);
    assert_eq!(bob.open_from(alice_public.as_bytes(), b"chat-1", &envelope).unwrap(), b"hello bob");
}

#[test]
fn conversation_keys_are_cached_until_forgotten() {
    let mut alice = Conversations::new(pair(1));
    let bob = pair(2).public_key();
    let carol = pair(3).public_key();
    assert!(!alice.is_cached(bob.as_bytes(), b"chat-1"));
    let first = alice.seal_for(bob.as_bytes(), b"chat-1", b"one", None).unwrap();
    assert!(alice.is_cached(bob.as_bytes(), b"chat-1"));
    assert!(!alice.is_cached(bob.as_bytes(), b"chat-2"));
    assert!(!alice.is_cached(carol.as_bytes(), b"chat-1"));
    alice.seal_for(carol.as_bytes(), b"chat-1", b"two", None).unwrap();
    alice.seal_for(bob.as_bytes(), b"chat-2", b"three", None).unwrap();
    assert_eq!(alice.open_from(bob.as_bytes(), b"chat-1", &first).unwrap(), b"one");
    alice.forget(bob.as_bytes(), b"chat-1");
    assert!(!alice.is_cached(bob.as_bytes(), b"chat-1"));
    assert!(alice.is_cached(carol.as_bytes(), b"chat-1"));
    assert!(alice.is_cached(bob.as_bytes(), b"chat-2"));
    alice.forget(bob.as_bytes(), b"never used");
    assert!(alice.is_cached(bob.as_bytes(), b"chat-2"));
    assert_eq!(alice.open_from(bob.as_bytes(), b"chat-1", &first).unwrap(), b"one");
    assert!(alice.is_cached(bob.as_bytes(), b"chat-1"));
}

#[test]
fn conversation_with_a_malformed_peer_key_is_refused_and_not_cached() {
    let mut alice = Conversations::new(pair(1));
    let err = alice.seal_for(&[0u8; 32], b"chat-1", b"x", None).unwrap_err();
    assert_eq!(err.kind(), ErrorKind::KeyGeneration);
    assert!(!alice.is_cached(&[0u8; 32], b"chat-1"));
    let err = alice.seal_for(&[7u8; 31], b"chat-1", b"x", None).unwrap_err();
    assert_eq!(err.kind(), ErrorKind::KeyGeneration);
    let envelope = seal_with_nonce(
        &pulse_core::agreement::SharedSecret::from_array([0u8; 32]),
        [0u8; 12],
        b"x",
        None,
    )
    .unwrap();
    let err = alice.open_from(&[0u8; 32], b"chat-1", &envelope).unwrap_err();
    assert_eq!(err.kind(), ErrorKind::KeyGeneration);
}
