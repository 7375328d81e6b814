//! Sealing with counted nonces.
//!
//! A [`Sealer`] owns one key and one lane of it, and seals each message
//! under the nonce made of the lane and a counter that only grows. Two
//! parties that share a key take different lanes. No two envelopes of one
//! key then share a nonce, with certainty, where random nonces give this
//! only with high probability.

use crate::agreement::SharedSecret;
use crate::bytes::optional_slice_view;
use crate::cipher::{seal_with_nonce, sealable, EncryptedMessage, NONCE_LEN};
use crate::error::{CryptoError, ErrorKind};
use vstd::bytes::{
    lemma_auto_spec_u32_to_from_le_bytes, lemma_auto_spec_u64_to_from_le_bytes,
    spec_u32_from_le_bytes, spec_u32_to_le_bytes, spec_u64_from_le_bytes, spec_u64_to_le_bytes,
    u32_to_le_bytes, u64_to_le_bytes,
};
use vstd::prelude::*;

verus! {

/// The nonce of a lane and a counter: the lane's four bytes, then the
/// counter's eight, both little-endian.
pub open spec fn counter_nonce(lane: u32, counter: u64) -> Seq<u8> {
    spec_u32_to_le_bytes(lane) + spec_u64_to_le_bytes(counter)
}

/// Different lanes or different counters give different nonces, and every
/// such nonce is 12 bytes.
pub proof fn law_counter_nonces_distinct(lane_a: u32, counter_a: u64, lane_b: u32, counter_b: u64)
    ensures
        counter_nonce(lane_a, counter_a).len() == NONCE_LEN,
        (lane_a != lane_b || counter_a != counter_b) ==> counter_nonce(lane_a, counter_a)
            != counter_nonce(lane_b, counter_b),
{
    lemma_auto_spec_u32_to_from_le_bytes();
    lemma_auto_spec_u64_to_from_le_bytes();
    let a = counter_nonce(lane_a, counter_a);
    let b = counter_nonce(lane_b, counter_b);
    if a == b {
        assert(a.subrange(0, 4) =~= spec_u32_to_le_bytes(lane_a));
        assert(b.subrange(0, 4) =~= spec_u32_to_le_bytes(lane_b));
        assert(a.subrange(4, 12) =~= spec_u64_to_le_bytes(counter_a));
        assert(b.subrange(4, 12) =~= spec_u64_to_le_bytes(counter_b));
        assert(spec_u32_from_le_bytes(spec_u32_to_le_bytes(lane_a)) == lane_a);
        assert(spec_u32_from_le_bytes(spec_u32_to_le_bytes(lane_b)) == lane_b);
        assert(spec_u64_from_le_bytes(spec_u64_to_le_bytes(counter_a)) == counter_a);
        assert(spec_u64_from_le_bytes(spec_u64_to_le_bytes(counter_b)) == counter_b);
    }
}

/// Any number of consecutive seals of one sealer use pairwise distinct
/// nonces: the seal that follows `i` others and the seal that follows `j`
/// others, counted from any starting point, differ in their nonce.
pub proof fn law_consecutive_seals_use_distinct_nonces(lane: u32, start: u64, i: nat, j: nat)
    requires
        i != j,
        start + i <= u64::MAX,
        start + j <= u64::MAX,
    ensures
        counter_nonce(lane, (start + i) as u64) != counter_nonce(lane, (start + j) as u64),
{
    law_counter_nonces_distinct(lane, (start + i) as u64, lane, (start + j) as u64);
}

/// What a [`Sealer`] holds.
pub struct SealerView {
    pub key: Seq<u8>,
    pub lane: u32,
    /// The counter of the next seal, which is also the number of envelopes
    /// sealed so far.
    pub next: u64,
}

/// One key, one lane of it, and the count of envelopes sealed on that lane.
pub struct Sealer {
    key: SharedSecret,
    lane: u32,
    next: u64,
}

impl View for Sealer {
    type V = SealerView;

    closed spec fn view(&self) -> SealerView {
        SealerView { key: self.key@, lane: self.lane, next: self.next }
    }
}

/// The 12 bytes of the nonce of a lane and a counter.
fn counter_nonce_bytes(lane: u32, counter: u64) -> (nonce: [u8; 12])
    ensures
        nonce@ == counter_nonce(lane, counter),
{
    let head = u32_to_le_bytes(lane);
    let tail = u64_to_le_bytes(counter);
    let mut nonce = [0u8; 12];
    let mut i: usize = 0;
    while i < 4
        invariant
            i <= 4,
            head@.len() == 4,
            forall|j: int| 0 <= j < i ==> nonce@[j] == head@[j],
        decreases 4 - i,
    {
        nonce[i] = head[i];
        i += 1;
    }
    let mut k: usize = 0;
    while k < 8
        invariant
            k <= 8,
            head@.len() == 4,
            tail@.len() == 8,
            forall|j: int| 0 <= j < 4 ==> nonce@[j] == head@[j],
            forall|j: int| 0 <= j < k ==> nonce@[4 + j] == tail@[j],
        decreases 8 - k,
    {
        nonce[4 + k] = tail[k];
        k += 1;
    }
    assert(nonce@ =~= head@ + tail@);
    nonce
}

impl Sealer {
    /// A sealer for the given key and lane, which has sealed nothing yet.
    ///
    /// The caller answers for the lane: no other sealer of the same key may
    /// use it, now or after a restart.
    pub fn new(key: SharedSecret, lane: u32) -> (sealer: Sealer)
        ensures
            sealer@.key == key@,
            sealer@.lane == lane,
            sealer@.next == 0,
    {
        Sealer { key, lane, next: 0 }
    }

    /// A sealer that continues a lane on which `sealed` envelopes were
    /// sealed before, as after a restart.
    ///
    /// The caller answers for the count: it must not be below the number
    /// of envelopes that any sealer of this key and lane has sealed.
    pub fn resume(key: SharedSecret, lane: u32, sealed: u64) -> (sealer: Sealer)
        ensures
            sealer@.key == key@,
            sealer@.lane == lane,
            sealer@.next == sealed,
    {
        Sealer { key, lane, next: sealed }
    }

    /// The number of envelopes sealed so far.
    pub fn sealed(&self) -> (count: u64)
        ensures
            count == self@.next,
    {
        self.next
    }

    /// Seals a plaintext under the sealer's key and its next nonce.
    ///
    /// Succeeds exactly on sealable lengths while the counter is not used
    /// up. The envelope then carries the nonce of the lane and of the count
    /// before the call, and the count grows by one. A refusal is an
    /// `EncryptionError` and leaves the sealer as it was.
    pub fn seal_next(&mut self, plaintext: &[u8], associated_data: Option<&[u8]>) -> (res: Result<
        EncryptedMessage,
        CryptoError,
    >)
        ensures
            final(self)@.key == old(self)@.key,
            final(self)@.lane == old(self)@.lane,
            res is Ok <==> sealable(plaintext@, optional_slice_view(associated_data)) && old(
                self,
            )@.next < u64::MAX,
            res matches Ok(envelope) ==> {
                &&& envelope@.nonce == counter_nonce(old(self)@.lane, old(self)@.next)
                &&& envelope@.is_sealing_of(
                    old(self)@.key,
                    plaintext@,
                    optional_slice_view(associated_data),
                )
                &&& final(self)@.next == old(self)@.next + 1
            },
            res matches Err(e) ==> e.kind() == ErrorKind::Encryption && final(self)@.next == old(
                self,
            )@.next,
    {
        if self.next == u64::MAX {
            return Err(
                CryptoError::new(ErrorKind::Encryption, "the key has sealed all that it may"),
            );
        }
        let nonce = counter_nonce_bytes(self.lane, self.next);
        let res = seal_with_nonce(&self.key, nonce, plaintext, associated_data);
        if res.is_ok() {
            self.next = self.next + 1;
        }
        res
    }
}

} // verus!
