//! A principal's conversations: one key for each peer and conversation,
//! derived once and kept for as long as the conversation lasts.
//!
//! Every message is sealed under the key of its conversation, which comes
//! from the agreement between the two principals and never from a key that
//! other conversations share. A key is derived when a conversation is first
//! used and then taken from the cache; a cached key is always the key that
//! the agreement gives. Exclusive access to the value is what keeps two
//! callers from deriving the same key twice.

use crate::agreement::{agree_for_conversation, agreed_key, SharedSecret};
use crate::bytes::{bytes_equal, optional_slice_view, to_vec};
use crate::cipher::{
    is_outcome, open, open_outcome, seal, sealable, EncryptedMessage, TAG_LEN,
};
use crate::error::{CryptoError, ErrorKind};
use crate::identity::{KeyPair, KeyPairView, PublicKey};
use vstd::prelude::*;

verus! {

/// One cached key.
struct Entry {
    peer: Vec<u8>,
    conversation_id: Vec<u8>,
    key: SharedSecret,
}

/// What a [`Conversations`] holds: the principal's key pair and the set of
/// (peer's public key, conversation identifier) pairs whose key is cached.
pub struct ConversationsView {
    pub identity: KeyPairView,
    pub cached: Set<(Seq<u8>, Seq<u8>)>,
}

/// A principal's key pair with the cache of its conversations' keys.
pub struct Conversations {
    identity: KeyPair,
    entries: Vec<Entry>,
}

impl View for Conversations {
    type V = ConversationsView;

    closed spec fn view(&self) -> ConversationsView {
        ConversationsView {
            identity: self.identity@,
            cached: Set::new(|pair: (Seq<u8>, Seq<u8>)| holds(self.entries@, pair)),
        }
    }
}

/// True when one of the entries is for the given peer and conversation.
spec fn holds(entries: Seq<Entry>, pair: (Seq<u8>, Seq<u8>)) -> bool {
    exists|i: int|
        0 <= i < entries.len() && (#[trigger] entries[i]).peer@ == pair.0
            && entries[i].conversation_id@ == pair.1
}

/// The entries with one more hold what they held before, and what the new
/// entry is for.
proof fn lemma_holds_push(entries: Seq<Entry>, entry: Entry, pair: (Seq<u8>, Seq<u8>))
    ensures
        holds(entries.push(entry), pair) <==> holds(entries, pair) || (entry.peer@ == pair.0
            && entry.conversation_id@ == pair.1),
{
    let longer = entries.push(entry);
    if holds(longer, pair) {
        let i = choose|i: int|
            0 <= i < longer.len() && (#[trigger] longer[i]).peer@ == pair.0
                && longer[i].conversation_id@ == pair.1;
        if i < entries.len() {
            assert(entries[i] == longer[i]);
        }
    }
    if holds(entries, pair) {
        let i = choose|i: int|
            0 <= i < entries.len() && (#[trigger] entries[i]).peer@ == pair.0
                && entries[i].conversation_id@ == pair.1;
        assert(longer[i] == entries[i]);
    }
    if entry.peer@ == pair.0 && entry.conversation_id@ == pair.1 {
        assert(longer[longer.len() - 1] == entry);
    }
}

/// The key of a conversation, as the agreement gives it; `None` where the
/// agreement is refused.
pub open spec fn conversation_key(
    identity: KeyPairView,
    their_public: Seq<u8>,
    conversation_id: Seq<u8>,
) -> Option<Seq<u8>> {
    agreed_key(identity.private_key, their_public, conversation_id)
}

/// True when the entry's key is the key of its conversation, for this
/// principal and for every peer that holds the entry's public key.
spec fn entry_is_agreed(identity: KeyPairView, entry: Entry) -> bool {
    &&& conversation_key(identity, entry.peer@, entry.conversation_id@) == Some(entry.key@)
    &&& forall|peer: KeyPairView|
        #[trigger] peer.valid() && peer.public_key == entry.peer@ ==> conversation_key(
            peer,
            identity.public_key,
            entry.conversation_id@,
        ) == Some(entry.key@)
}

impl Conversations {
    #[verifier::type_invariant]
    spec fn well_formed(self) -> bool {
        forall|i: int|
            0 <= i < self.entries@.len() ==> entry_is_agreed(
                self.identity@,
                #[trigger] self.entries@[i],
            )
    }

    /// The conversations of the principal with the given key pair, none of
    /// which has a key yet.
    pub fn new(identity: KeyPair) -> (conversations: Conversations)
        ensures
            conversations@.identity == identity@,
            conversations@.cached == Set::<(Seq<u8>, Seq<u8>)>::empty(),
    {
        let conversations = Conversations { identity, entries: Vec::new() };
        assert(conversations@.cached =~= Set::<(Seq<u8>, Seq<u8>)>::empty());
        conversations
    }

    /// The principal's public key, which the peers need.
    pub fn public_key(&self) -> (key: PublicKey)
        ensures
            key@ == self@.identity.public_key,
            self@.identity.valid(),
    {
        self.identity.public_key()
    }

    /// The position of the cached key of a conversation, if it is cached.
    fn find(&self, their_public: &[u8], conversation_id: &[u8]) -> (res: Option<usize>)
        ensures
            res matches Some(i) ==> i < self.entries@.len() && self.entries@[i as int].peer@
                == their_public@ && self.entries@[i as int].conversation_id@ == conversation_id@,
            res is None ==> !self@.cached.contains((their_public@, conversation_id@)),
            res is Some ==> self@.cached.contains((their_public@, conversation_id@)),
    {
        let mut i: usize = 0;
        while i < self.entries.len()
            invariant
                i <= self.entries@.len(),
                forall|j: int|
                    0 <= j < i ==> !((#[trigger] self.entries@[j]).peer@ == their_public@
                        && self.entries@[j].conversation_id@ == conversation_id@),
            decreases self.entries@.len() - i,
        {
            let entry = &self.entries[i];
            if bytes_equal(entry.peer.as_slice(), their_public) && bytes_equal(
                entry.conversation_id.as_slice(),
                conversation_id,
            ) {
                return Some(i);
            }
            i += 1;
        }
        None
    }

    /// True when the key of the conversation is cached.
    pub fn is_cached(&self, their_public: &[u8], conversation_id: &[u8]) -> (cached: bool)
        ensures
            cached == self@.cached.contains((their_public@, conversation_id@)),
    {
        self.find(their_public, conversation_id).is_some()
    }

    /// The position of the key of a conversation, which is derived and
    /// cached first where it is not cached yet.
    fn locate(&mut self, their_public: &[u8], conversation_id: &[u8]) -> (res: Result<
        usize,
        CryptoError,
    >)
        ensures
            final(self)@.identity == old(self)@.identity,
            match conversation_key(old(self)@.identity, their_public@, conversation_id@) {
                Some(key) => {
                    &&& res matches Ok(i)
                    &&& i < final(self).entries@.len()
                    &&& final(self).entries@[i as int].key@ == key
                    &&& final(self)@.cached == old(self)@.cached.insert(
                        (their_public@, conversation_id@),
                    )
                },
                None => {
                    &&& res matches Err(e)
                    &&& e.kind() == ErrorKind::KeyGeneration
                    &&& final(self)@.cached == old(self)@.cached
                },
            },
            old(self)@.cached.contains((their_public@, conversation_id@)) ==> final(self).entries@
                == old(self).entries@,
            forall|peer: KeyPairView|
                #[trigger] peer.valid() && peer.public_key == their_public@ ==> conversation_key(
                    peer,
                    old(self)@.identity.public_key,
                    conversation_id@,
                ) == conversation_key(old(self)@.identity, their_public@, conversation_id@),
    {
        proof {
            use_type_invariant(&*self);
        }
        let ghost before = self@;
        let ghost entries_before = self.entries@;
        match self.find(their_public, conversation_id) {
            Some(i) => {
                assert(entry_is_agreed(self.identity@, self.entries@[i as int]));
                assert(self@.cached =~= before.cached.insert((their_public@, conversation_id@)));
                Ok(i)
            },
            None => {
                let key = match agree_for_conversation(
                    &self.identity,
                    their_public,
                    conversation_id,
                ) {
                    Ok(key) => key,
                    Err(e) => {
                        return Err(e);
                    },
                };
                let mut entries: Vec<Entry> = Vec::new();
                core::mem::swap(&mut self.entries, &mut entries);
                entries.push(
                    Entry {
                        peer: to_vec(their_public),
                        conversation_id: to_vec(conversation_id),
                        key,
                    },
                );
                self.entries = entries;
                proof {
                    let added = (their_public@, conversation_id@);
                    assert(self.entries@ == entries_before.push(self.entries@.last()));
                    assert forall|pair: (Seq<u8>, Seq<u8>)|
                        self@.cached.contains(pair) <==> before.cached.insert(added).contains(
                            pair,
                        ) by {
                        lemma_holds_push(entries_before, self.entries@.last(), pair);
                    }
                    assert(self@.cached =~= before.cached.insert(added));
                }
                Ok(self.entries.len() - 1)
            },
        }
    }

    /// Seals a message of a conversation with a peer, under the key of that
    /// conversation and a fresh random nonce.
    ///
    /// Fails, with `KeyGenerationError`, where the agreement with the peer
    /// is refused; the other failures are those of sealing. The envelope is
    /// a sealing under the conversation's key. That key is also the one
    /// that the peer gets for this conversation from its own valid key
    /// pair and this principal's public key.
    pub fn seal_for(
        &mut self,
        their_public: &[u8],
        conversation_id: &[u8],
        plaintext: &[u8],
        associated_data: Option<&[u8]>,
    ) -> (res: Result<EncryptedMessage, CryptoError>)
        ensures
            final(self)@.identity == old(self)@.identity,
            conversation_key(old(self)@.identity, their_public@, conversation_id@) is None ==> (
            res matches Err(e) && e.kind() == ErrorKind::KeyGeneration && final(self)@.cached
                == old(self)@.cached),
            conversation_key(old(self)@.identity, their_public@, conversation_id@) matches Some(
                key,
            ) ==> {
                &&& final(self)@.cached == old(self)@.cached.insert(
                    (their_public@, conversation_id@),
                )
                &&& res matches Ok(envelope) ==> envelope@.is_sealing_of(
                    key,
                    plaintext@,
                    optional_slice_view(associated_data),
                )
                &&& !sealable(plaintext@, optional_slice_view(associated_data)) ==> (
                res matches Err(e) && e.kind() == ErrorKind::Encryption)
                &&& sealable(plaintext@, optional_slice_view(associated_data)) ==> (
                res matches Err(e) ==> e.kind() == ErrorKind::KeyGeneration)
            },
            forall|peer: KeyPairView|
                #[trigger] peer.valid() && peer.public_key == their_public@ ==> conversation_key(
                    peer,
                    old(self)@.identity.public_key,
                    conversation_id@,
                ) == conversation_key(old(self)@.identity, their_public@, conversation_id@),
    {
        let i = match self.locate(their_public, conversation_id) {
            Ok(i) => i,
            Err(e) => {
                return Err(e);
            },
        };
        seal(&self.entries[i].key, plaintext, associated_data)
    }

    /// Opens an envelope of a conversation with a peer, under the key of
    /// that conversation.
    ///
    /// Fails, with `KeyGenerationError`, where the agreement with the peer
    /// is refused; otherwise the answer is that of opening under the
    /// conversation's key.
    pub fn open_from(
        &mut self,
        their_public: &[u8],
        conversation_id: &[u8],
        envelope: &EncryptedMessage,
    ) -> (res: Result<Vec<u8>, CryptoError>)
        ensures
            final(self)@.identity == old(self)@.identity,
            res matches Ok(plaintext) ==> plaintext@.len() + TAG_LEN == envelope@.ciphertext.len(),
            match conversation_key(old(self)@.identity, their_public@, conversation_id@) {
                Some(key) => {
                    &&& is_outcome(res, open_outcome(key, envelope@))
                    &&& final(self)@.cached == old(self)@.cached.insert(
                        (their_public@, conversation_id@),
                    )
                },
                None => {
                    &&& res matches Err(e)
                    &&& e.kind() == ErrorKind::KeyGeneration
                    &&& final(self)@.cached == old(self)@.cached
                },
            },
    {
        let i = match self.locate(their_public, conversation_id) {
            Ok(i) => i,
            Err(e) => {
                return Err(e);
            },
        };
        open(&self.entries[i].key, envelope)
    }

    /// Ends a conversation: its key leaves the cache and is overwritten.
    pub fn forget(&mut self, their_public: &[u8], conversation_id: &[u8])
        ensures
            final(self)@.identity == old(self)@.identity,
            final(self)@.cached == old(self)@.cached.remove((their_public@, conversation_id@)),
    {
        proof {
            use_type_invariant(&*self);
        }
        let ghost before = self@;
        let ghost entries_before = self.entries@;
        let ghost gone = (their_public@, conversation_id@);
        let mut kept: Vec<Entry> = Vec::new();
        let mut pending: Vec<Entry> = Vec::new();
        core::mem::swap(&mut self.entries, &mut pending);
        while pending.len() > 0
            invariant
                self.identity@ == before.identity,
                self.entries@.len() == 0,
                gone == (their_public@, conversation_id@),
                forall|i: int|
                    0 <= i < pending@.len() ==> entry_is_agreed(
                        self.identity@,
                        #[trigger] pending@[i],
                    ),
                forall|i: int|
                    0 <= i < kept@.len() ==> entry_is_agreed(self.identity@, #[trigger] kept@[i]),
                forall|pair: (Seq<u8>, Seq<u8>)|
                    holds(entries_before, pair) ==> holds(pending@, pair) || holds(kept@, pair)
                        || pair == gone,
                forall|pair: (Seq<u8>, Seq<u8>)|
                    holds(kept@, pair) ==> holds(entries_before, pair) && pair != gone,
                forall|pair: (Seq<u8>, Seq<u8>)|
                    holds(pending@, pair) ==> holds(entries_before, pair),
            decreases pending@.len(),
        {
            let ghost pending_then = pending@;
            let ghost kept_then = kept@;
            let entry = pending.pop().unwrap();
            let ghost popped = entry;
            let matches = bytes_equal(entry.peer.as_slice(), their_public) && bytes_equal(
                entry.conversation_id.as_slice(),
                conversation_id,
            );
            if !matches {
                kept.push(entry);
            }
            proof {
                assert(pending_then == pending@.push(popped));
                assert forall|pair: (Seq<u8>, Seq<u8>)|
                    holds(entries_before, pair) implies holds(pending@, pair) || holds(kept@, pair)
                        || pair == gone by {
                    lemma_holds_push(pending@, popped, pair);
                    lemma_holds_push(kept_then, popped, pair);
                }
                assert forall|pair: (Seq<u8>, Seq<u8>)| holds(kept@, pair) implies holds(
                    entries_before,
                    pair,
                ) && pair != gone by {
                    lemma_holds_push(pending@, popped, pair);
                    lemma_holds_push(kept_then, popped, pair);
                    if matches {
                        assert(kept@ == kept_then);
                        assert(holds(kept_then, pair));
                    } else {
                        assert(kept@ == kept_then.push(popped));
                        if !holds(kept_then, pair) {
                            assert(popped.peer@ == pair.0 && popped.conversation_id@ == pair.1);
                            assert(holds(pending_then, pair));
                            assert(gone.0 == their_public@ && gone.1 == conversation_id@);
                            assert(holds(entries_before, pair));
                            assert(pair != gone);
                        } else {
                            assert(holds(entries_before, pair));
                            assert(pair != gone);
                        }
                    }
                }
                assert forall|pair: (Seq<u8>, Seq<u8>)| holds(pending@, pair) implies holds(
                    entries_before,
                    pair,
                ) by {
                    lemma_holds_push(pending@, popped, pair);
                }
            }
        }
        self.entries = kept;
        proof {
            assert forall|pair: (Seq<u8>, Seq<u8>)|
                self@.cached.contains(pair) <==> before.cached.remove(gone).contains(pair) by {
                if holds(pending@, pair) {
                    let i = choose|i: int|
                        0 <= i < pending@.len() && (#[trigger] pending@[i]).peer@ == pair.0
                            && pending@[i].conversation_id@ == pair.1;
                }
            }
            assert(self@.cached =~= before.cached.remove(gone));
        }
    }
}

} // verus!
