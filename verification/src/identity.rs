//! Identity keying: a principal's long-term X25519 key pair.
//!
//! A principal's key pair is static: one pair identifies the principal
//! across all of its conversations, and each conversation's key is separated
//! from the others by the derivation step in `agreement`. One-time pairs
//! exist only inside `agreement::agree_once`, which makes one, uses it for a
//! single agreement and drops it.

use crate::entropy::os_random;
use crate::error::{CryptoError, ErrorKind};
use vstd::prelude::*;
use x25519_dalek::{PublicKey as DalekPublicKey, StaticSecret};
use zeroize::Zeroize;

verus! {

/// Length in bytes of a public key, of a private key and of a shared secret.
pub const KEY_LEN: usize = 32;

/// The X25519 public key that belongs to 32 private bytes: what
/// `x25519_dalek::PublicKey::from(&StaticSecret)` computes.
pub uninterp spec fn x25519_public_key(private_key: Seq<u8>) -> Seq<u8>;

/// True when every byte of the sequence is zero.
pub open spec fn is_all_zero(bytes: Seq<u8>) -> bool {
    forall|i: int| 0 <= i < bytes.len() ==> bytes[i] == 0u8
}

/// Trusted: `x25519_dalek::PublicKey::from(&StaticSecret)`, with
/// `StaticSecret::from([u8; 32])` and `PublicKey::to_bytes` around it.
///
/// The result is the public key of the given private bytes. It depends on
/// the private bytes alone, so it is given the name `x25519_public_key`.
#[verifier::external_body]
fn derive_public_key(private_key: &[u8; 32]) -> (public_key: [u8; 32])
    ensures
        public_key@ == x25519_public_key(private_key@),
{
    DalekPublicKey::from(&StaticSecret::from(*private_key)).to_bytes()
}

/// Trusted: `zeroize::Zeroize::zeroize` on a byte array.
///
/// Overwrites the 32 bytes with zeros, in a way that the compiler does not
/// remove.
#[verifier::external_body]
pub(crate) fn scrub(bytes: &mut [u8; 32])
    ensures
        is_all_zero(final(bytes)@),
    opens_invariants none
    no_unwind
{
    bytes.zeroize();
}

/// A public key: 32 bytes that may be shown to anyone.
#[derive(Debug, Clone, Copy, PartialEq, Eq)]
pub struct PublicKey {
    bytes: [u8; 32],
}

impl View for PublicKey {
    type V = Seq<u8>;

    closed spec fn view(&self) -> Seq<u8> {
        self.bytes@
    }
}

impl PublicKey {
    /// Reads a public key from bytes received from elsewhere. Anything but
    /// 32 bytes is refused as `InvalidKeyFormat`.
    pub fn from_bytes(bytes: &[u8]) -> (res: Result<PublicKey, CryptoError>)
        ensures
            bytes@.len() == KEY_LEN ==> (res matches Ok(key) && key@ == bytes@),
            bytes@.len() != KEY_LEN ==> (res matches Err(e) && e.kind()
                == ErrorKind::InvalidKeyFormat),
    {
        match copy_key_bytes(bytes) {
            Some(array) => Ok(PublicKey { bytes: array }),
            None => Err(CryptoError::new(ErrorKind::InvalidKeyFormat, "a public key is 32 bytes")),
        }
    }

    /// Wraps 32 bytes as a public key.
    pub fn from_array(bytes: [u8; 32]) -> (key: PublicKey)
        ensures
            key@ == bytes@,
    {
        PublicKey { bytes }
    }

    /// The key's bytes.
    pub fn as_bytes(&self) -> (bytes: &[u8; 32])
        ensures
            bytes@ == self@,
    {
        &self.bytes
    }

    /// The key's bytes, copied into a vector.
    pub fn to_vec(&self) -> (bytes: Vec<u8>)
        ensures
            bytes@ == self@,
    {
        let mut out: Vec<u8> = Vec::new();
        out.extend_from_slice(self.bytes.as_slice());
        out
    }

    /// A public key always holds 32 bytes.
    pub proof fn lemma_len(&self)
        ensures
            self@.len() == KEY_LEN,
    {
    }
}

/// Copies a slice of exactly 32 bytes into an array; `None` for any other
/// length.
pub fn copy_key_bytes(bytes: &[u8]) -> (res: Option<[u8; 32]>)
    ensures
        res is Some <==> bytes@.len() == KEY_LEN,
        res matches Some(array) ==> array@ == bytes@,
{
    if bytes.len() != KEY_LEN {
        return None;
    }
    let mut out = [0u8; 32];
    let mut i: usize = 0;
    while i < KEY_LEN
        invariant
            i <= KEY_LEN,
            bytes@.len() == KEY_LEN,
            forall|j: int| 0 <= j < i ==> out@[j] == bytes@[j],
        decreases KEY_LEN - i,
    {
        out[i] = bytes[i];
        i += 1;
    }
    assert(out@ =~= bytes@);
    Some(out)
}

/// A private key: 32 secret bytes. The type has no `Debug` and no `Clone`,
/// offers no way to read the bytes from outside the crate, and overwrites
/// them with zeros when the value is dropped.
pub struct PrivateKey {
    bytes: [u8; 32],
}

impl View for PrivateKey {
    type V = Seq<u8>;

    closed spec fn view(&self) -> Seq<u8> {
        self.bytes@
    }
}

impl PrivateKey {
    /// Takes ownership of 32 secret bytes.
    pub fn from_array(bytes: [u8; 32]) -> (key: PrivateKey)
        ensures
            key@ == bytes@,
    {
        PrivateKey { bytes }
    }

    /// The secret bytes, for the primitives inside this crate.
    pub(crate) fn expose(&self) -> (bytes: &[u8; 32])
        ensures
            bytes@ == self@,
    {
        &self.bytes
    }

    /// A private key always holds 32 bytes.
    pub proof fn lemma_len(&self)
        ensures
            self@.len() == KEY_LEN,
    {
    }
}

impl Drop for PrivateKey {
    /// Overwrites the secret bytes with zeros.
    fn drop(&mut self)
        ensures
            is_all_zero(final(self)@),
        opens_invariants none
        no_unwind
    {
        scrub(&mut self.bytes);
    }
}

/// What a [`KeyPair`] holds, as two byte sequences.
pub struct KeyPairView {
    pub public_key: Seq<u8>,
    pub private_key: Seq<u8>,
}

impl KeyPairView {
    /// A pair is valid when both halves are 32 bytes and the public half is
    /// the one that belongs to the private half.
    pub open spec fn valid(self) -> bool {
        &&& self.private_key.len() == KEY_LEN
        &&& self.public_key.len() == KEY_LEN
        &&& self.public_key == x25519_public_key(self.private_key)
    }
}

/// A principal's key pair. Every value of this type is valid: the public
/// key is the one derived from the private key.
pub struct KeyPair {
    public_key: PublicKey,
    private_key: PrivateKey,
}

impl View for KeyPair {
    type V = KeyPairView;

    closed spec fn view(&self) -> KeyPairView {
        KeyPairView { public_key: self.public_key@, private_key: self.private_key@ }
    }
}

impl KeyPair {
    #[verifier::type_invariant]
    spec fn well_formed(self) -> bool {
        self.public_key.bytes@ == x25519_public_key(self.private_key.bytes@)
    }

    /// Generates a fresh key pair from the operating system's entropy
    /// source. Fails, with `KeyGenerationError`, only where that source is
    /// unavailable.
    pub fn generate() -> (res: Result<KeyPair, CryptoError>)
        ensures
            res matches Ok(pair) ==> pair@.valid(),
            res matches Err(e) ==> e.kind() == ErrorKind::KeyGeneration,
    {
        match os_random::<32>() {
            Some(bytes) => Ok(KeyPair::from_private_bytes(bytes)),
            None => Err(
                CryptoError::new(ErrorKind::KeyGeneration, "the entropy source is unavailable"),
            ),
        }
    }

    /// The key pair of the given private bytes.
    pub fn from_private_bytes(private_key: [u8; 32]) -> (pair: KeyPair)
        ensures
            pair@.valid(),
            pair@.private_key == private_key@,
            pair@.public_key == x25519_public_key(private_key@),
    {
        let public_key = derive_public_key(&private_key);
        KeyPair {
            public_key: PublicKey { bytes: public_key },
            private_key: PrivateKey { bytes: private_key },
        }
    }

    /// The public half, which may be handed to anyone. The pair it comes
    /// from is valid, as every pair is.
    pub fn public_key(&self) -> (key: PublicKey)
        ensures
            key@ == self@.public_key,
            self@.valid(),
    {
        proof {
            use_type_invariant(self);
            self.public_key.lemma_len();
            self.private_key.lemma_len();
        }
        self.public_key
    }

    /// The private half, for the primitives inside this crate.
    pub(crate) fn private_key(&self) -> (key: &PrivateKey)
        ensures
            key@ == self@.private_key,
            self@.valid(),
    {
        proof {
            use_type_invariant(self);
            self.public_key.lemma_len();
            self.private_key.lemma_len();
        }
        &self.private_key
    }
}

/// Generates a principal's long-term key pair. See [`KeyPair::generate`].
pub fn generate_identity() -> (res: Result<KeyPair, CryptoError>)
    ensures
        res matches Ok(pair) ==> pair@.valid(),
        res matches Err(e) ==> e.kind() == ErrorKind::KeyGeneration,
{
    KeyPair::generate()
}

/// The public key of a key pair: a pure projection.
pub fn public_of(pair: &KeyPair) -> (key: PublicKey)
    ensures
        key@ == pair@.public_key,
{
    pair.public_key()
}

/// What a [`Principal`] holds.
pub struct PrincipalView {
    pub id: u128,
    pub public_key: Seq<u8>,
}

/// A user or device as others know it: a stable identifier and the
/// long-term public key that was registered for it. Neither can be changed;
/// another key makes another principal.
#[derive(Debug, Clone, Copy, PartialEq, Eq)]
pub struct Principal {
    id: u128,
    public_key: PublicKey,
}

impl View for Principal {
    type V = PrincipalView;

    closed spec fn view(&self) -> PrincipalView {
        PrincipalView { id: self.id, public_key: self.public_key@ }
    }
}

impl Principal {
    /// Registers a public key under an identifier. Key bytes of any length
    /// but 32 are refused as `InvalidKeyFormat`.
    pub fn register(id: u128, public_key: &[u8]) -> (res: Result<Principal, CryptoError>)
        ensures
            public_key@.len() == KEY_LEN ==> (res matches Ok(principal) && principal@ == (
            PrincipalView { id, public_key: public_key@ })),
            public_key@.len() != KEY_LEN ==> (res matches Err(e) && e.kind()
                == ErrorKind::InvalidKeyFormat),
    {
        match PublicKey::from_bytes(public_key) {
            Ok(key) => Ok(Principal { id, public_key: key }),
            Err(e) => Err(e),
        }
    }

    /// The principal's identifier.
    pub fn id(&self) -> (id: u128)
        ensures
            id == self@.id,
    {
        self.id
    }

    /// The principal's public key.
    pub fn public_key(&self) -> (key: PublicKey)
        ensures
            key@ == self@.public_key,
    {
        self.public_key
    }
}

} // verus!
