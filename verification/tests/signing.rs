use pulse_core::error::CryptoError;
use pulse_core::signing::{sign, verify, SigningKeyPair, SIGNATURE_LEN};

fn unhex(text: &str) -> Vec<u8> {
    (0..text.len() / 2).map(|i| u8::from_str_radix(&text[2 * i..2 * i + 2], 16).unwrap()).collect()
}

const SECRET: &str = "9d61b19deffd5a60ba844af492ec2cc44449c5697b326919703bac031cae7f60";
const PUBLIC: &str = "d75a980182b10ab7d54bfed3c964073a0ee172f3daa62325af021a68f707511a";

#[test]
fn signing_key_pair_derives_the_published_public_key() {
    let pair = SigningKeyPair::from_secret_bytes(&unhex(SECRET)).ok().unwrap();
    assert_eq!(pair.public_key().to_vec(), unhex(PUBLIC));
}

#[test]
fn sign_matches_the_published_signature_of_the_empty_message() {
    let pair = SigningKeyPair::from_secret_bytes(&unhex(SECRET)).ok().unwrap();
    let signature = sign(&pair, b"");
    assert_eq!(
        signature,
        unhex(
            "e5564300c360ac729086e2cc806e828a84877f1eb8e5d974d873e065224901555fb8821590a33bacc61e39701cf9b46bd25bf5f0595bbe24655141438e7a100b"
        )
    );
}

#[test]
fn verify_accepts_a_signature_made_elsewhere() {
    let signature = unhex(
        "029ef90e4b21a320ac36b7f4f540becca34688e02ba3c5af1b886645af5955cb54b54a8b949acd6a4b76281916e2871da95eecf951bc32f5828c0424cf961d07",
    );
    assert_eq!(verify(&unhex(PUBLIC), b"hello bob", &signature).unwrap(), true);
    assert_eq!(verify(&unhex(PUBLIC), b"hello bob!", &signature).unwrap(), false);
}

#[test]
fn verify_accepts_what_sign_made() {
    let messages: [&[u8]; 4] = [b"", b"a", b"hello bob", &[0u8; 4096]];
    for _ in 0..5 {
        let pair = SigningKeyPair::generate().ok().unwrap();
        for message in messages {
            let signature = sign(&pair, message);
            assert_eq!(signature.len(), SIGNATURE_LEN);
            assert_eq!(verify(pair.public_key().as_bytes(), message, &signature).unwrap(), true);
        }
    }
}

#[test]
fn verify_answers_false_for_another_key_pair() {
    let signer = SigningKeyPair::generate().ok().unwrap();
    let other = SigningKeyPair::generate().ok().unwrap();
    let signature = sign(&signer, b"hello bob");
    assert_eq!(verify(other.public_key().as_bytes(), b"hello bob", &signature).unwrap(), false);
}

#[test]
fn verify_answers_false_for_a_mutated_message_or_signature() {
    let pair = SigningKeyPair::generate().ok().unwrap();
    let public = pair.public_key();
    let message = b"hello bob".to_vec();
    let signature = sign(&pair, &message);
    for bit in 0..message.len() * 8 {
        let mut changed = message.clone();
        changed[bit / 8] ^= 1 << (bit % 8);
        assert_eq!(verify(public.as_bytes(), &changed, &signature).unwrap(), false);
    }
    for bit in 0..signature.len() * 8 {
        let mut changed = signature.clone();
        changed[bit / 8] ^= 1 << (bit % 8);
        assert_eq!(verify(public.as_bytes(), &message, &changed).unwrap(), false);
    }
}

#[test]
fn verify_answers_false_for_a_signature_of_the_wrong_length() {
    let pair = SigningKeyPair::generate().ok().unwrap();
    let signature = sign(&pair, b"m");
    assert_eq!(verify(pair.public_key().as_bytes(), b"m", &signature[..63]).unwrap(), false);
    assert_eq!(verify(pair.public_key().as_bytes(), b"m", b"").unwrap(), false);
    let mut longer = signature.clone();
    longer.push(0);
    assert_eq!(verify(pair.public_key().as_bytes(), b"m", &longer).unwrap(), false);
}

#[test]
fn verify_refuses_a_malformed_key() {
    let pair = SigningKeyPair::generate().ok().unwrap();
    let signature = sign(&pair, b"m");
    for len in [0usize, 31, 33] {
        let err = verify(&vec![0u8; len], b"m", &signature).unwrap_err();
        assert!(matches!(err, CryptoError::InvalidKeyFormat(_)));
    }
    let mut not_a_point = [0u8; 32];
    not_a_point[0] = 2;
    let err = verify(&not_a_point, b"m", &signature).unwrap_err();
    assert!(matches!(err, CryptoError::InvalidKeyFormat(_)));
    let err = verify(&not_a_point, b"m", b"short").unwrap_err();
    assert!(matches!(err, CryptoError::InvalidKeyFormat(_)));
}

#[test]
fn signing_key_is_read_from_exactly_32_bytes() {
    for len in [0usize, 31, 33, 64] {
        let err = SigningKeyPair::from_secret_bytes(&vec![1u8; len]).err().unwrap();
        assert!(matches!(err, CryptoError::InvalidKeyFormat(_)));
    }
}
