//! Message authenticator: detached Ed25519 signatures.
//!
//! Signing keys are separate key material from the X25519 pair that
//! encrypts, so that anyone who holds a sender's public signing key can
//! check a message's origin, whether or not they can decrypt it.

use crate::bytes::to_vec;
use crate::entropy::os_random;
use crate::error::{CryptoError, ErrorKind};
use crate::identity::{copy_key_bytes, PrivateKey, PublicKey, KEY_LEN};
use ed25519_dalek::{Signature, Signer, SigningKey, Verifier, VerifyingKey};
use vstd::prelude::*;

verus! {

/// Length in bytes of a signature.
pub const SIGNATURE_LEN: usize = 64;

/// The Ed25519 public key that belongs to 32 secret bytes: what
/// `ed25519_dalek::SigningKey::from_bytes` followed by `verifying_key`
/// computes.
pub uninterp spec fn ed25519_public_key(secret_key: Seq<u8>) -> Seq<u8>;

/// True when 32 bytes decode to a point of the curve, so that they can
/// serve as a public key: when `ed25519_dalek::VerifyingKey::from_bytes`
/// accepts them.
pub uninterp spec fn ed25519_key_decodes(public_key: Seq<u8>) -> bool;

/// Whether Ed25519 accepts 64 signature bytes for a message under a public
/// key that decodes: what `ed25519_dalek::VerifyingKey::verify` decides.
pub uninterp spec fn ed25519_accepts(
    public_key: Seq<u8>,
    message: Seq<u8>,
    signature: Seq<u8>,
) -> bool;

/// Trusted: `ed25519_dalek::SigningKey::verifying_key`, with
/// `SigningKey::from_bytes` and `VerifyingKey::to_bytes` around it.
///
/// The result depends on the secret bytes alone and is named
/// `ed25519_public_key`. Being the encoding of a point, it decodes.
#[verifier::external_body]
fn derive_verifying_key(secret_key: &[u8; 32]) -> (public_key: [u8; 32])
    ensures
        public_key@ == ed25519_public_key(secret_key@),
        ed25519_key_decodes(public_key@),
{
    SigningKey::from_bytes(secret_key).verifying_key().to_bytes()
}

/// Trusted: `ed25519_dalek::SigningKey::sign` (the `Signer` trait), with
/// `SigningKey::from_bytes` and `Signature::to_bytes` around it.
///
/// The signature that comes back is accepted, for the same message, under
/// the public key that belongs to the secret bytes: the documented contract
/// of signing.
#[verifier::external_body]
fn ed25519_sign(secret_key: &[u8; 32], message: &[u8]) -> (signature: [u8; 64])
    ensures
        ed25519_accepts(ed25519_public_key(secret_key@), message@, signature@),
{
    SigningKey::from_bytes(secret_key).sign(message).to_bytes()
}

/// Trusted: `ed25519_dalek::VerifyingKey::from_bytes`.
///
/// Whether the bytes are accepted depends on the bytes alone and is named
/// `ed25519_key_decodes`.
#[verifier::external_body]
fn key_decodes(public_key: &[u8; 32]) -> (decodes: bool)
    ensures
        decodes == ed25519_key_decodes(public_key@),
{
    VerifyingKey::from_bytes(public_key).is_ok()
}

/// Trusted: `ed25519_dalek::VerifyingKey::verify` (the `Verifier` trait),
/// with `VerifyingKey::from_bytes` and `Signature::from_bytes` around it.
///
/// The answer depends on the three arguments alone and is named
/// `ed25519_accepts`. The key is required to decode, so `from_bytes` does
/// not fail here.
#[verifier::external_body]
fn ed25519_verify(public_key: &[u8; 32], message: &[u8], signature: &[u8; 64]) -> (accepted: bool)
    requires
        ed25519_key_decodes(public_key@),
    ensures
        accepted == ed25519_accepts(public_key@, message@, signature@),
{
    match VerifyingKey::from_bytes(public_key) {
        Ok(key) => key.verify(message, &Signature::from_bytes(signature)).is_ok(),
        Err(_) => false,
    }
}

/// What a [`SigningKeyPair`] holds, as two byte sequences.
pub struct SigningKeyPairView {
    pub public_key: Seq<u8>,
    pub secret_key: Seq<u8>,
}

impl SigningKeyPairView {
    /// A pair is valid when both halves are 32 bytes and the public half is
    /// the one that belongs to the secret half.
    pub open spec fn valid(self) -> bool {
        &&& self.secret_key.len() == KEY_LEN
        &&& self.public_key.len() == KEY_LEN
        &&& self.public_key == ed25519_public_key(self.secret_key)
        &&& ed25519_key_decodes(self.public_key)
    }
}

/// A principal's signing key pair. Every value of this type is valid.
pub struct SigningKeyPair {
    public_key: PublicKey,
    secret_key: PrivateKey,
}

impl View for SigningKeyPair {
    type V = SigningKeyPairView;

    closed spec fn view(&self) -> SigningKeyPairView {
        SigningKeyPairView { public_key: self.public_key@, secret_key: self.secret_key@ }
    }
}

impl SigningKeyPair {
    #[verifier::type_invariant]
    spec fn well_formed(self) -> bool {
        &&& self.public_key@ == ed25519_public_key(self.secret_key@)
        &&& ed25519_key_decodes(self.public_key@)
    }

    /// Generates a fresh signing key pair from the operating system's
    /// entropy source. Fails, with `KeyGenerationError`, only where that
    /// source is unavailable.
    pub fn generate() -> (res: Result<SigningKeyPair, CryptoError>)
        ensures
            res matches Ok(pair) ==> pair@.valid(),
            res matches Err(e) ==> e.kind() == ErrorKind::KeyGeneration,
    {
        match os_random::<32>() {
            Some(bytes) => Ok(SigningKeyPair::from_secret_array(bytes)),
            None => Err(
                CryptoError::new(ErrorKind::KeyGeneration, "the entropy source is unavailable"),
            ),
        }
    }

    /// The signing key pair of the given secret bytes.
    pub fn from_secret_array(secret_key: [u8; 32]) -> (pair: SigningKeyPair)
        ensures
            pair@.valid(),
            pair@.secret_key == secret_key@,
    {
        let public_key = derive_verifying_key(&secret_key);
        let pair = SigningKeyPair {
            public_key: PublicKey::from_array(public_key),
            secret_key: PrivateKey::from_array(secret_key),
        };
        proof {
            pair.public_key.lemma_len();
            pair.secret_key.lemma_len();
        }
        pair
    }

    /// The signing key pair of secret bytes that were stored earlier.
    /// Anything but 32 bytes is refused as `InvalidKeyFormat`.
    pub fn from_secret_bytes(secret_key: &[u8]) -> (res: Result<SigningKeyPair, CryptoError>)
        ensures
            secret_key@.len() == KEY_LEN ==> (res matches Ok(pair) && pair@.valid()
                && pair@.secret_key == secret_key@),
            secret_key@.len() != KEY_LEN ==> (res matches Err(e) && e.kind()
                == ErrorKind::InvalidKeyFormat),
    {
        match copy_key_bytes(secret_key) {
            Some(array) => Ok(SigningKeyPair::from_secret_array(array)),
            None => Err(
                CryptoError::new(ErrorKind::InvalidKeyFormat, "a signing key is 32 bytes"),
            ),
        }
    }

    /// The public half, which may be handed to anyone. The pair it comes
    /// from is valid, as every pair is.
    pub fn public_key(&self) -> (key: PublicKey)
        ensures
            key@ == self@.public_key,
            self@.valid(),
    {
        proof {
            use_type_invariant(self);
            self.public_key.lemma_len();
            self.secret_key.lemma_len();
        }
        self.public_key
    }
}

/// True when the bytes are a signature on the message that is accepted
/// under the public key of the given secret key.
pub open spec fn is_signature_by(signature: Seq<u8>, secret_key: Seq<u8>, message: Seq<u8>) -> bool {
    &&& signature.len() == SIGNATURE_LEN
    &&& ed25519_accepts(ed25519_public_key(secret_key), message, signature)
}

/// What verifying gives. A key that is not 32 bytes, or does not decode,
/// is an `InvalidKeyFormat` failure. Under any other key the answer is
/// `Ok`: true where the signature is 64 bytes that Ed25519 accepts, and
/// false for everything else.
pub open spec fn verify_outcome(public_key: Seq<u8>, message: Seq<u8>, signature: Seq<u8>) -> Result<
    bool,
    ErrorKind,
> {
    if public_key.len() != KEY_LEN || !ed25519_key_decodes(public_key) {
        Err(ErrorKind::InvalidKeyFormat)
    } else {
        Ok(signature.len() == SIGNATURE_LEN && ed25519_accepts(public_key, message, signature))
    }
}

/// Signs a message. The signature is 64 bytes and is accepted under the
/// key pair's public key.
pub fn sign(key: &SigningKeyPair, message: &[u8]) -> (signature: Vec<u8>)
    ensures
        is_signature_by(signature@, key@.secret_key, message@),
        key@.valid(),
{
    proof {
        use_type_invariant(key);
        key.public_key.lemma_len();
        key.secret_key.lemma_len();
    }
    let signature = ed25519_sign(key.secret_key.expose(), message);
    to_vec(signature.as_slice())
}

/// Copies a slice of exactly 64 bytes into an array; `None` for any other
/// length.
fn copy_signature(bytes: &[u8]) -> (res: Option<[u8; 64]>)
    ensures
        res is Some <==> bytes@.len() == SIGNATURE_LEN,
        res matches Some(array) ==> array@ == bytes@,
{
    if bytes.len() != SIGNATURE_LEN {
        return None;
    }
    let mut out = [0u8; 64];
    let mut i: usize = 0;
    while i < SIGNATURE_LEN
        invariant
            i <= SIGNATURE_LEN,
            bytes@.len() == SIGNATURE_LEN,
            forall|j: int| 0 <= j < i ==> out@[j] == bytes@[j],
        decreases SIGNATURE_LEN - i,
    {
        out[i] = bytes[i];
        i += 1;
    }
    assert(out@ =~= bytes@);
    Some(out)
}

/// Verifies a detached signature on a message under a public signing key.
///
/// A signature that does not match is an expected outcome and gives
/// `Ok(false)`, never an error. An error is returned only for a key that is
/// malformed.
pub fn verify(public_key: &[u8], message: &[u8], signature: &[u8]) -> (res: Result<bool, CryptoError>)
    ensures
        match verify_outcome(public_key@, message@, signature@) {
            Ok(accepted) => res == Ok::<bool, CryptoError>(accepted),
            Err(kind) => res matches Err(e) && e.kind() == kind,
        },
{
    let key = match copy_key_bytes(public_key) {
        Some(array) => array,
        None => {
            return Err(
                CryptoError::new(ErrorKind::InvalidKeyFormat, "a public signing key is 32 bytes"),
            );
        },
    };
    if !key_decodes(&key) {
        return Err(
            CryptoError::new(
                ErrorKind::InvalidKeyFormat,
                "the public signing key is not a point of the curve",
            ),
        );
    }
    match copy_signature(signature) {
        Some(candidate) => Ok(ed25519_verify(&key, message, &candidate)),
        None => Ok(false),
    }
}

/// A signature made by a key pair verifies, for the same message, under
/// that pair's public key.
pub proof fn law_verify_accepts_own_signature(
    key: SigningKeyPairView,
    message: Seq<u8>,
    signature: Seq<u8>,
)
    requires
        key.valid(),
        is_signature_by(signature, key.secret_key, message),
    ensures
        verify_outcome(key.public_key, message, signature) == Ok::<bool, ErrorKind>(true),
{
}

/// Under a key that decodes, verification never fails with an error:
/// whatever the message and the signature, the answer is `Ok`, and it is
/// `Ok(false)` for every signature that Ed25519 does not accept.
pub proof fn law_mismatch_is_not_an_error(public_key: Seq<u8>, message: Seq<u8>, signature: Seq<u8>)
    requires
        public_key.len() == KEY_LEN,
        ed25519_key_decodes(public_key),
    ensures
        verify_outcome(public_key, message, signature) is Ok,
        !ed25519_accepts(public_key, message, signature) ==> verify_outcome(
            public_key,
            message,
            signature,
        ) == Ok::<bool, ErrorKind>(false),
{
}

} // verus!
