//! Key agreement: a per-conversation symmetric key from one party's private
//! key and the other party's public key.
//!
//! With [`agree`] and [`agree_for_conversation`] both parties use their
//! long-term key pairs. With [`agree_once`] the sender uses a key pair that
//! is made for one message and discarded, so that a later loss of the
//! sender's long-term key does not expose the message.
//!
//! The raw Diffie-Hellman output is never used as a key. It is refused where
//! it is all zeros (the peer's key then contributed nothing), and otherwise
//! passed through HKDF-SHA256 with a fixed salt and the conversation
//! identifier as context, so that two conversations of the same two
//! principals get unrelated keys.

use crate::entropy::os_random;
use crate::error::{CryptoError, ErrorKind};
use crate::identity::{
    copy_key_bytes, is_all_zero, scrub, x25519_public_key, KeyPair, KeyPairView, PublicKey,
    KEY_LEN,
};
use hkdf::Hkdf;
use sha2::Sha256;
use vstd::prelude::*;
use x25519_dalek::{PublicKey as DalekPublicKey, StaticSecret};

verus! {

/// The raw X25519 output for 32 private bytes and a peer's 32 public bytes:
/// what `x25519_dalek::StaticSecret::diffie_hellman` computes.
pub uninterp spec fn x25519_shared_secret(private_key: Seq<u8>, their_public: Seq<u8>) -> Seq<u8>;

/// The first 32 bytes of HKDF-SHA256 output for a salt, input key material
/// and context: what `hkdf::Hkdf::<Sha256>::new` followed by `expand`
/// computes.
pub uninterp spec fn hkdf_sha256_key(salt: Seq<u8>, input_key: Seq<u8>, info: Seq<u8>) -> Seq<u8>;

/// Trusted: `x25519_dalek::StaticSecret::diffie_hellman`, with
/// `StaticSecret::from([u8; 32])`, `PublicKey::from([u8; 32])` and
/// `SharedSecret::to_bytes` around it.
///
/// The result depends on the two arguments alone and is named
/// `x25519_shared_secret`. The second clause is the defining property of
/// the exchange, which the crate documents: where the peer's public key
/// belongs to some private key, the peer computes the same bytes from that
/// private key and this side's public key.
#[verifier::external_body]
fn diffie_hellman(private_key: &[u8; 32], their_public: &[u8; 32]) -> (shared: [u8; 32])
    ensures
        shared@ == x25519_shared_secret(private_key@, their_public@),
        forall|peer_private: Seq<u8>|
            peer_private.len() == 32 && their_public@ == #[trigger] x25519_public_key(
                peer_private,
            ) ==> shared@ == x25519_shared_secret(peer_private, x25519_public_key(private_key@)),
{
    StaticSecret::from(*private_key).diffie_hellman(&DalekPublicKey::from(*their_public)).to_bytes()
}

/// Trusted: `hkdf::Hkdf::<sha2::Sha256>::new` and `Hkdf::expand` into 32
/// bytes.
///
/// The result depends on the three arguments alone and is named
/// `hkdf_sha256_key`. `expand` fails only for outputs longer than 255 hash
/// blocks, which 32 bytes is not.
#[verifier::external_body]
fn hkdf_derive(salt: &[u8], input_key: &[u8; 32], info: &[u8]) -> (key: [u8; 32])
    ensures
        key@ == hkdf_sha256_key(salt@, input_key@, info@),
{
    let mut key = [0u8; 32];
    Hkdf::<Sha256>::new(Some(salt), input_key).expand(info, &mut key).expect(
        "32 bytes is a valid HKDF-SHA256 output length",
    );
    key
}

/// A symmetric key for the message cipher: 32 secret bytes. As with a
/// private key, the bytes cannot be read from outside the crate and are
/// overwritten with zeros when the value is dropped.
pub struct SharedSecret {
    bytes: [u8; 32],
}

impl View for SharedSecret {
    type V = Seq<u8>;

    closed spec fn view(&self) -> Seq<u8> {
        self.bytes@
    }
}

impl SharedSecret {
    /// Takes ownership of 32 bytes of key material.
    pub fn from_array(bytes: [u8; 32]) -> (key: SharedSecret)
        ensures
            key@ == bytes@,
    {
        SharedSecret { bytes }
    }

    /// A key drawn from the operating system's entropy source, for data
    /// that is not tied to a conversation. Fails, with `KeyGenerationError`,
    /// only where that source is unavailable.
    pub fn random() -> (res: Result<SharedSecret, CryptoError>)
        ensures
            res matches Err(e) ==> e.kind() == ErrorKind::KeyGeneration,
    {
        match os_random::<32>() {
            Some(bytes) => Ok(SharedSecret { bytes }),
            None => Err(
                CryptoError::new(ErrorKind::KeyGeneration, "the entropy source is unavailable"),
            ),
        }
    }

    /// The key bytes, for the primitives inside this crate.
    pub(crate) fn expose(&self) -> (bytes: &[u8; 32])
        ensures
            bytes@ == self@,
    {
        &self.bytes
    }

    /// Overwrites the key with zeros now, before the value is dropped. A
    /// key that was erased opens nothing that it sealed.
    pub fn erase(&mut self)
        ensures
            is_all_zero(final(self)@),
    {
        scrub(&mut self.bytes);
    }

    /// A shared secret always holds 32 bytes.
    pub proof fn lemma_len(&self)
        ensures
            self@.len() == KEY_LEN,
    {
    }

    /// True when both keys hold the same bytes. Every byte is looked at,
    /// whatever the outcome.
    pub fn same_as(&self, other: &SharedSecret) -> (same: bool)
        ensures
            same == (self@ == other@),
    {
        let mut difference: u8 = 0;
        let mut i: usize = 0;
        while i < KEY_LEN
            invariant
                i <= KEY_LEN,
                difference == 0 <==> forall|j: int|
                    0 <= j < i ==> self.bytes@[j] == other.bytes@[j],
            decreases KEY_LEN - i,
        {
            let a = self.bytes[i];
            let b = other.bytes[i];
            assert(((difference | (a ^ b)) == 0u8) <==> (difference == 0u8 && a == b))
                by (bit_vector);
            difference = difference | (a ^ b);
            i += 1;
        }
        proof {
            if difference == 0 {
                assert(self.bytes@ =~= other.bytes@);
            }
        }
        difference == 0
    }
}

impl Drop for SharedSecret {
    /// Overwrites the key with zeros.
    fn drop(&mut self)
        ensures
            is_all_zero(final(self)@),
        opens_invariants none
        no_unwind
    {
        scrub(&mut self.bytes);
    }
}

/// The salt of the derivation step: the ASCII text `pulse/agree/v1`.
pub open spec fn agreement_salt() -> Seq<u8> {
    seq![112u8, 117u8, 108u8, 115u8, 101u8, 47u8, 97u8, 103u8, 114u8, 101u8, 101u8, 47u8, 118u8, 49u8]
}

/// The key on which two parties agree, or `None` where the exchange is
/// refused: the peer's public key is not 32 bytes, or the raw output is all
/// zeros.
pub open spec fn agreed_key(
    my_private: Seq<u8>,
    their_public: Seq<u8>,
    conversation_id: Seq<u8>,
) -> Option<Seq<u8>> {
    if their_public.len() != KEY_LEN {
        None
    } else {
        let raw = x25519_shared_secret(my_private, their_public);
        if is_all_zero(raw) {
            None
        } else {
            Some(hkdf_sha256_key(agreement_salt(), raw, conversation_id))
        }
    }
}

/// The derivation keeps what the exchange gives: where two valid key pairs
/// get the same raw output from each other's public key, they agree on the
/// same key for every conversation, or are both refused.
pub proof fn lemma_derivation_keeps_symmetry(a: KeyPairView, b: KeyPairView, conversation_id: Seq<u8>)
    requires
        a.valid(),
        b.valid(),
        x25519_shared_secret(a.private_key, b.public_key) == x25519_shared_secret(
            b.private_key,
            a.public_key,
        ),
    ensures
        agreed_key(a.private_key, b.public_key, conversation_id) == agreed_key(
            b.private_key,
            a.public_key,
            conversation_id,
        ),
{
}

/// True when every one of the 32 bytes is zero. Every byte is looked at,
/// whatever the outcome.
fn all_zero(bytes: &[u8; 32]) -> (res: bool)
    ensures
        res == is_all_zero(bytes@),
{
    let mut seen: u8 = 0;
    let mut i: usize = 0;
    while i < KEY_LEN
        invariant
            i <= KEY_LEN,
            seen == 0 <==> forall|j: int| 0 <= j < i ==> bytes@[j] == 0u8,
        decreases KEY_LEN - i,
    {
        let b = bytes[i];
        assert(((seen | b) == 0u8) <==> (seen == 0u8 && b == 0u8)) by (bit_vector);
        seen = seen | b;
        i += 1;
    }
    seen == 0
}

fn salt_bytes() -> (salt: [u8; 14])
    ensures
        salt@ == agreement_salt(),
{
    let salt: [u8; 14] = [112, 117, 108, 115, 101, 47, 97, 103, 114, 101, 101, 47, 118, 49];
    assert(salt@ =~= agreement_salt());
    salt
}

/// Derives the key of one conversation from this side's key pair and the
/// peer's public key bytes.
///
/// Fails, with `KeyGenerationError`, exactly where [`agreed_key`] is
/// `None`. The last clause is the symmetry of the agreement: a peer whose
/// valid key pair has the public key given here, and who runs the same
/// derivation with this side's public key and the same conversation
/// identifier, gets the same outcome.
pub fn agree_for_conversation(
    my: &KeyPair,
    their_public: &[u8],
    conversation_id: &[u8],
) -> (res: Result<SharedSecret, CryptoError>)
    ensures
        match agreed_key(my@.private_key, their_public@, conversation_id@) {
            Some(key) => res matches Ok(secret) && secret@ == key,
            None => res matches Err(e) && e.kind() == ErrorKind::KeyGeneration,
        },
        forall|peer: KeyPairView|
            #[trigger] peer.valid() && peer.public_key == their_public@ ==> agreed_key(
                peer.private_key,
                my@.public_key,
                conversation_id@,
            ) == agreed_key(my@.private_key, their_public@, conversation_id@),
{
    let my_private = my.private_key();
    let peer_key = match copy_key_bytes(their_public) {
        Some(array) => array,
        None => {
            return Err(
                CryptoError::new(ErrorKind::KeyGeneration, "the peer's public key is not 32 bytes"),
            );
        },
    };
    let mut raw = diffie_hellman(my_private.expose(), &peer_key);
    assert forall|peer: KeyPairView|
        #[trigger] peer.valid() && peer.public_key == their_public@ implies agreed_key(
        peer.private_key,
        my@.public_key,
        conversation_id@,
    ) == agreed_key(my@.private_key, their_public@, conversation_id@) by {
        assert(peer_key@ == x25519_public_key(peer.private_key));
        assert(raw@ == x25519_shared_secret(peer.private_key, my@.public_key));
        lemma_derivation_keeps_symmetry(my@, peer, conversation_id@);
    }
    if all_zero(&raw) {
        return Err(
            CryptoError::new(
                ErrorKind::KeyGeneration,
                "the peer's public key contributes nothing to the shared secret",
            ),
        );
    }
    let salt = salt_bytes();
    let key = hkdf_derive(salt.as_slice(), &raw, conversation_id);
    scrub(&mut raw);
    Ok(SharedSecret { bytes: key })
}

/// Derives the key that two principals share outside any particular
/// conversation: [`agree_for_conversation`] with an empty identifier.
pub fn agree(my: &KeyPair, their_public: &[u8]) -> (res: Result<SharedSecret, CryptoError>)
    ensures
        match agreed_key(my@.private_key, their_public@, Seq::<u8>::empty()) {
            Some(key) => res matches Ok(secret) && secret@ == key,
            None => res matches Err(e) && e.kind() == ErrorKind::KeyGeneration,
        },
        forall|peer: KeyPairView|
            #[trigger] peer.valid() && peer.public_key == their_public@ ==> agreed_key(
                peer.private_key,
                my@.public_key,
                Seq::<u8>::empty(),
            ) == agreed_key(my@.private_key, their_public@, Seq::<u8>::empty()),
{
    let no_conversation: [u8; 0] = [];
    assert(no_conversation@ =~= Seq::<u8>::empty());
    agree_for_conversation(my, their_public, no_conversation.as_slice())
}

/// Derives the key of one conversation from a key pair that is made for
/// this one agreement and discarded when the function returns.
///
/// The public key that comes back is the one-time pair's, to be sent along
/// with the message. The receiver calls [`agree_for_conversation`] with its
/// own key pair and that public key, and gets the same key. Fails, with
/// `KeyGenerationError`, where the entropy source is unavailable or the
/// agreement is refused.
pub fn agree_once(their_public: &[u8], conversation_id: &[u8]) -> (res: Result<
    (PublicKey, SharedSecret),
    CryptoError,
>)
    ensures
        res matches Ok((one_time_public, secret)) ==> {
            &&& exists|one_time: KeyPairView|
                #![trigger one_time.valid()]
                {
                    &&& one_time.valid()
                    &&& one_time.public_key == one_time_public@
                    &&& agreed_key(one_time.private_key, their_public@, conversation_id@) == Some(
                        secret@,
                    )
                }
            &&& forall|peer: KeyPairView|
                #[trigger] peer.valid() && peer.public_key == their_public@ ==> agreed_key(
                    peer.private_key,
                    one_time_public@,
                    conversation_id@,
                ) == Some(secret@)
        },
        res matches Err(e) ==> e.kind() == ErrorKind::KeyGeneration,
        their_public@.len() != KEY_LEN ==> res is Err,
{
    let one_time = match KeyPair::generate() {
        Ok(pair) => pair,
        Err(e) => {
            return Err(e);
        },
    };
    let one_time_public = one_time.public_key();
    match agree_for_conversation(&one_time, their_public, conversation_id) {
        Ok(secret) => {
            assert(one_time@.valid());
            Ok((one_time_public, secret))
        },
        Err(e) => Err(e),
    }
}

} // verus!
