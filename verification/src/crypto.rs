//! One principal's cryptographic context: a symmetric key for the message
//! cipher, and, once generated, the principal's key pairs.

use crate::agreement::{agree, agreed_key, SharedSecret};
use crate::bytes::optional_slice_view;
use crate::cipher::{is_outcome, open, open_outcome, seal, sealable, EncryptedMessage, TAG_LEN};
use crate::error::{CryptoError, ErrorKind};
use crate::identity::{KeyPair, KeyPairView, PublicKey};
use crate::signing::{
    is_signature_by, sign, verify, verify_outcome, SigningKeyPair, SigningKeyPairView,
};
use vstd::prelude::*;

verus! {

/// What a [`Crypto`] holds.
pub struct CryptoView {
    pub key: Seq<u8>,
    pub key_pair: Option<KeyPairView>,
    pub signing_key: Option<SigningKeyPairView>,
}

impl CryptoView {
    /// The pairs that a context holds are valid, as every pair is.
    pub open spec fn valid(self) -> bool {
        &&& self.key_pair matches Some(pair) ==> pair.valid()
        &&& self.signing_key matches Some(pair) ==> pair.valid()
    }
}

/// The reason of every failure for want of a key pair.
pub open spec fn no_key_pair() -> Seq<char> {
    "No key pair available"@
}

/// A principal's cryptographic context.
///
/// The symmetric key of a context made by [`Crypto::new`] is random and
/// known to nobody else; it suits data that stays with its owner. A
/// conversation takes its key from the agreement between the two
/// principals: see [`Crypto::derive_shared_secret`] and
/// [`Crypto::with_key`].
pub struct Crypto {
    key: SharedSecret,
    key_pair: Option<KeyPair>,
    signing_key: Option<SigningKeyPair>,
}

impl View for Crypto {
    type V = CryptoView;

    closed spec fn view(&self) -> CryptoView {
        CryptoView {
            key: self.key@,
            key_pair: match self.key_pair {
                Some(pair) => Some(pair@),
                None => None,
            },
            signing_key: match self.signing_key {
                Some(pair) => Some(pair@),
                None => None,
            },
        }
    }
}

impl Crypto {
    /// A context with a fresh random symmetric key and no key pairs. Fails,
    /// with `KeyGenerationError`, only where the entropy source is
    /// unavailable.
    pub fn new() -> (res: Result<Crypto, CryptoError>)
        ensures
            res matches Ok(crypto) ==> crypto@.key_pair is None && crypto@.signing_key is None,
            res matches Err(e) ==> e.kind() == ErrorKind::KeyGeneration,
    {
        match SharedSecret::random() {
            Ok(key) => Ok(Crypto { key, key_pair: None, signing_key: None }),
            Err(e) => Err(e),
        }
    }

    /// A context that seals and opens under the given key, with no key
    /// pairs.
    pub fn with_key(key: SharedSecret) -> (crypto: Crypto)
        ensures
            crypto@.key == key@,
            crypto@.key_pair is None,
            crypto@.signing_key is None,
    {
        Crypto { key, key_pair: None, signing_key: None }
    }

    /// Generates the principal's key pairs, one for key agreement and one,
    /// from separate randomness, for signing, and returns the public key
    /// for agreement. Pairs that the context held before are replaced.
    ///
    /// Fails, with `KeyGenerationError`, only where the entropy source is
    /// unavailable; the context is then as it was.
    pub fn generate_key_pair(&mut self) -> (res: Result<PublicKey, CryptoError>)
        ensures
            final(self)@.key == old(self)@.key,
            res matches Ok(public_key) ==> {
                &&& final(self)@.key_pair matches Some(pair)
                &&& pair.valid()
                &&& pair.public_key == public_key@
                &&& final(self)@.signing_key matches Some(signing)
                &&& signing.valid()
            },
            res matches Err(e) ==> e.kind() == ErrorKind::KeyGeneration && final(self)@ == old(
                self,
            )@,
    {
        let pair = match KeyPair::generate() {
            Ok(pair) => pair,
            Err(e) => {
                return Err(e);
            },
        };
        let signing = match SigningKeyPair::generate() {
            Ok(signing) => signing,
            Err(e) => {
                return Err(e);
            },
        };
        let public_key = pair.public_key();
        self.key_pair = Some(pair);
        self.signing_key = Some(signing);
        Ok(public_key)
    }

    /// Learns from the pairs themselves that they are valid.
    fn pairs_are_valid(&self)
        ensures
            self@.valid(),
    {
        match &self.key_pair {
            Some(pair) => {
                let _ = pair.public_key();
            },
            None => {},
        }
        match &self.signing_key {
            Some(pair) => {
                let _ = pair.public_key();
            },
            None => {},
        }
    }

    /// True once key pairs were generated.
    pub fn has_key_pair(&self) -> (present: bool)
        ensures
            present == self@.key_pair is Some,
    {
        self.key_pair.is_some()
    }

    /// The public key for agreement, once key pairs were generated.
    pub fn public_key(&self) -> (key: Option<PublicKey>)
        ensures
            self@.valid(),
            match self@.key_pair {
                Some(pair) => key matches Some(k) && k@ == pair.public_key,
                None => key is None,
            },
    {
        self.pairs_are_valid();
        match &self.key_pair {
            Some(pair) => Some(pair.public_key()),
            None => None,
        }
    }

    /// The public key for signatures, once key pairs were generated.
    pub fn signing_public_key(&self) -> (key: Option<PublicKey>)
        ensures
            self@.valid(),
            match self@.signing_key {
                Some(pair) => key matches Some(k) && k@ == pair.public_key,
                None => key is None,
            },
    {
        self.pairs_are_valid();
        match &self.signing_key {
            Some(pair) => Some(pair.public_key()),
            None => None,
        }
    }

    /// Seals data under the context's key, with a fresh random nonce. The
    /// associated data, where there is any, is bound into the tag.
    ///
    /// The contract is that of [`seal`].
    pub fn encrypt(&self, data: &[u8], associated_data: Option<&[u8]>) -> (res: Result<
        EncryptedMessage,
        CryptoError,
    >)
        ensures
            res matches Ok(envelope) ==> envelope@.is_sealing_of(
                self@.key,
                data@,
                optional_slice_view(associated_data),
            ),
            !sealable(data@, optional_slice_view(associated_data)) ==> (res matches Err(e)
                && e.kind() == ErrorKind::Encryption),
            sealable(data@, optional_slice_view(associated_data)) ==> (res matches Err(e)
                ==> e.kind() == ErrorKind::KeyGeneration),
    {
        seal(&self.key, data, associated_data)
    }

    /// Opens an envelope under the context's key.
    ///
    /// The contract is that of [`open`]: a plaintext comes back exactly
    /// where the cipher authenticates the envelope, and is then the
    /// ciphertext's length less the tag.
    pub fn decrypt(&self, message: &EncryptedMessage) -> (res: Result<Vec<u8>, CryptoError>)
        ensures
            is_outcome(res, open_outcome(self@.key, message@)),
            res matches Ok(plaintext) ==> plaintext@.len() + TAG_LEN == message@.ciphertext.len(),
    {
        open(&self.key, message)
    }

    /// Derives the key that this principal shares with a peer.
    ///
    /// Fails, with `KeyGenerationError`, where no key pair was generated,
    /// and where the agreement is refused. Otherwise the key is the agreed
    /// key, which the peer derives as well from its own key pair and this
    /// principal's public key.
    pub fn derive_shared_secret(&self, peer_public_key: &PublicKey) -> (res: Result<
        SharedSecret,
        CryptoError,
    >)
        ensures
            self@.valid(),
            match self@.key_pair {
                Some(pair) => match agreed_key(
                    pair.private_key,
                    peer_public_key@,
                    Seq::<u8>::empty(),
                ) {
                    Some(key) => res matches Ok(secret) && secret@ == key,
                    None => res matches Err(e) && e.kind() == ErrorKind::KeyGeneration,
                },
                None => res matches Err(e) && e.kind() == ErrorKind::KeyGeneration && e.reason()
                    == no_key_pair(),
            },
            self@.key_pair matches Some(pair) ==> forall|peer: KeyPairView|
                #[trigger] peer.valid() && peer.public_key == peer_public_key@ ==> agreed_key(
                    peer.private_key,
                    pair.public_key,
                    Seq::<u8>::empty(),
                ) == agreed_key(pair.private_key, peer_public_key@, Seq::<u8>::empty()),
    {
        self.pairs_are_valid();
        match &self.key_pair {
            Some(pair) => agree(pair, peer_public_key.as_bytes().as_slice()),
            None => Err(CryptoError::new(ErrorKind::KeyGeneration, "No key pair available")),
        }
    }

    /// Signs a message with the principal's signing key.
    ///
    /// Fails, with `KeyGenerationError`, exactly where no key pair was
    /// generated.
    pub fn sign_message(&self, message: &[u8]) -> (res: Result<Vec<u8>, CryptoError>)
        ensures
            self@.valid(),
            match self@.signing_key {
                Some(pair) => res matches Ok(signature) && is_signature_by(
                    signature@,
                    pair.secret_key,
                    message@,
                ),
                None => res matches Err(e) && e.kind() == ErrorKind::KeyGeneration && e.reason()
                    == no_key_pair(),
            },
    {
        self.pairs_are_valid();
        match &self.signing_key {
            Some(pair) => Ok(sign(pair, message)),
            None => Err(CryptoError::new(ErrorKind::KeyGeneration, "No key pair available")),
        }
    }

    /// Verifies a signature on a message under the principal's own public
    /// signing key. For another principal's key, see [`verify`].
    ///
    /// Fails, with `KeyGenerationError`, exactly where no key pair was
    /// generated. A signature that does not match gives `Ok(false)`.
    pub fn verify_signature(&self, message: &[u8], signature: &[u8]) -> (res: Result<
        bool,
        CryptoError,
    >)
        ensures
            self@.valid(),
            match self@.signing_key {
                Some(pair) => res is Ok && verify_outcome(
                    pair.public_key,
                    message@,
                    signature@,
                ) == Ok::<bool, ErrorKind>(res->Ok_0),
                None => res matches Err(e) && e.kind() == ErrorKind::KeyGeneration && e.reason()
                    == no_key_pair(),
            },
    {
        self.pairs_are_valid();
        match &self.signing_key {
            Some(pair) => {
                verify(pair.public_key().as_bytes().as_slice(), message, signature)
            },
            None => Err(CryptoError::new(ErrorKind::KeyGeneration, "No key pair available")),
        }
    }
}

} // verus!
