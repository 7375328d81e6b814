//! The wire form of an envelope.
//!
//! An envelope is written as its nonce, its ciphertext and its associated
//! data, each preceded by its length as eight little-endian bytes; a flag
//! byte before the associated data says whether there is any. Exactly the
//! byte strings that are written this way are read back, so an envelope
//! has one wire form and a wire form has one envelope.

use crate::bytes::to_vec;
use crate::cipher::{open_outcome, EncryptedMessage, EnvelopeView};
use crate::error::ErrorKind;
use vstd::bytes::{
    lemma_auto_spec_u64_to_from_le_bytes, spec_u64_from_le_bytes, spec_u64_to_le_bytes,
    u64_from_le_bytes, u64_to_le_bytes,
};
use vstd::prelude::*;
use vstd::slice::slice_subrange;

verus! {

/// A byte string preceded by its length.
pub open spec fn length_prefixed(data: Seq<u8>) -> Seq<u8> {
    spec_u64_to_le_bytes(data.len() as u64) + data
}

/// The wire form of optional associated data: the flag 0, or the flag 1 and
/// the data with its length.
pub open spec fn optional_field(data: Option<Seq<u8>>) -> Seq<u8> {
    match data {
        None => seq![0u8],
        Some(d) => seq![1u8] + length_prefixed(d),
    }
}

/// The wire form of an envelope.
pub open spec fn envelope_bytes(envelope: EnvelopeView) -> Seq<u8> {
    length_prefixed(envelope.nonce) + (length_prefixed(envelope.ciphertext) + optional_field(
        envelope.associated_data,
    ))
}

/// True when each part of the envelope has a length that eight bytes can
/// hold, as is the case for every envelope in memory.
pub open spec fn encodable(envelope: EnvelopeView) -> bool {
    &&& envelope.nonce.len() <= u64::MAX
    &&& envelope.ciphertext.len() <= u64::MAX
    &&& (envelope.associated_data matches Some(d) ==> d.len() <= u64::MAX)
}

/// A length-prefixed string at the head of a byte string determines both
/// itself and what follows it.
proof fn lemma_prefixed_unique(x: Seq<u8>, after_x: Seq<u8>, y: Seq<u8>, after_y: Seq<u8>)
    requires
        x.len() <= u64::MAX,
        y.len() <= u64::MAX,
        length_prefixed(x) + after_x == length_prefixed(y) + after_y,
    ensures
        x == y,
        after_x == after_y,
{
    lemma_auto_spec_u64_to_from_le_bytes();
    let whole_x = length_prefixed(x) + after_x;
    let whole_y = length_prefixed(y) + after_y;
    let head_x = spec_u64_to_le_bytes(x.len() as u64);
    let head_y = spec_u64_to_le_bytes(y.len() as u64);
    assert(whole_x.subrange(0, 8) =~= head_x);
    assert(whole_y.subrange(0, 8) =~= head_y);
    assert(spec_u64_from_le_bytes(head_x) == x.len() as u64);
    assert(spec_u64_from_le_bytes(head_y) == y.len() as u64);
    assert(x.len() == y.len());
    assert(whole_x.subrange(8, 8 + x.len() as int) =~= x);
    assert(whole_y.subrange(8, 8 + y.len() as int) =~= y);
    assert(whole_x.skip(8 + x.len() as int) =~= after_x);
    assert(whole_y.skip(8 + y.len() as int) =~= after_y);
}

/// Two envelopes with the same wire form are the same.
pub proof fn law_wire_form_is_injective(a: EnvelopeView, b: EnvelopeView)
    requires
        encodable(a),
        encodable(b),
        envelope_bytes(a) == envelope_bytes(b),
    ensures
        a == b,
{
    let tail_a = length_prefixed(a.ciphertext) + optional_field(a.associated_data);
    let tail_b = length_prefixed(b.ciphertext) + optional_field(b.associated_data);
    lemma_prefixed_unique(a.nonce, tail_a, b.nonce, tail_b);
    lemma_prefixed_unique(
        a.ciphertext,
        optional_field(a.associated_data),
        b.ciphertext,
        optional_field(b.associated_data),
    );
    lemma_optional_field_unique(a.associated_data, b.associated_data);
}

/// Optional associated data is determined by its wire form.
proof fn lemma_optional_field_unique(a: Option<Seq<u8>>, b: Option<Seq<u8>>)
    requires
        a matches Some(d) ==> d.len() <= u64::MAX,
        b matches Some(d) ==> d.len() <= u64::MAX,
        optional_field(a) == optional_field(b),
    ensures
        a == b,
{
    assert(optional_field(a)[0] == optional_field(b)[0]);
    match (a, b) {
        (Some(x), Some(y)) => {
            assert(optional_field(a).skip(1) =~= length_prefixed(x));
            assert(optional_field(b).skip(1) =~= length_prefixed(y));
            assert(length_prefixed(x) + Seq::<u8>::empty() =~= length_prefixed(x));
            assert(length_prefixed(y) + Seq::<u8>::empty() =~= length_prefixed(y));
            lemma_prefixed_unique(x, Seq::<u8>::empty(), y, Seq::<u8>::empty());
        },
        (Some(x), None) => {
            assert(optional_field(a)[0] == 1u8);
            assert(optional_field(b)[0] == 0u8);
        },
        (None, Some(y)) => {
            assert(optional_field(a)[0] == 0u8);
            assert(optional_field(b)[0] == 1u8);
        },
        (None, None) => {},
    }
}

/// Appends a byte string, preceded by its length, to a buffer.
fn write_prefixed(out: &mut Vec<u8>, data: &[u8])
    ensures
        final(out)@ == old(out)@ + length_prefixed(data@),
{
    let mut head = u64_to_le_bytes(data.len() as u64);
    out.append(&mut head);
    out.extend_from_slice(data);
    assert(out@ =~= old(out)@ + length_prefixed(data@));
}

/// Reads the length-prefixed string that starts at `pos`, and says where
/// the bytes after it start. `None` where no length-prefixed string starts
/// there.
fn read_prefixed(bytes: &[u8], pos: usize) -> (res: Option<(Vec<u8>, usize)>)
    requires
        pos <= bytes@.len(),
    ensures
        match res {
            Some((data, next)) => pos <= next <= bytes@.len() && bytes@.skip(pos as int)
                == length_prefixed(data@) + bytes@.skip(next as int),
            None => forall|data: Seq<u8>, rest: Seq<u8>|
                data.len() <= u64::MAX ==> bytes@.skip(pos as int) != #[trigger] (length_prefixed(
                    data,
                ) + rest),
        },
{
    proof {
        lemma_auto_spec_u64_to_from_le_bytes();
    }
    let remaining = bytes.len() - pos;
    if remaining < 8 {
        assert forall|data: Seq<u8>, rest: Seq<u8>| data.len() <= u64::MAX implies bytes@.skip(
            pos as int,
        ) != #[trigger] (length_prefixed(data) + rest) by {
            assert((length_prefixed(data) + rest).len() >= 8);
        }
        return None;
    }
    let head = slice_subrange(bytes, pos, pos + 8);
    let declared = u64_from_le_bytes(head);
    if declared > (remaining - 8) as u64 {
        assert forall|data: Seq<u8>, rest: Seq<u8>| data.len() <= u64::MAX implies bytes@.skip(
            pos as int,
        ) != #[trigger] (length_prefixed(data) + rest) by {
            let whole = length_prefixed(data) + rest;
            if bytes@.skip(pos as int) == whole {
                assert(whole.subrange(0, 8) =~= spec_u64_to_le_bytes(data.len() as u64));
                assert(bytes@.skip(pos as int).subrange(0, 8) =~= head@);
                assert(declared == data.len() as u64);
                assert(whole.len() >= 8 + data.len());
            }
        }
        return None;
    }
    let start = pos + 8;
    let next = start + declared as usize;
    let data = to_vec(slice_subrange(bytes, start, next));
    proof {
        assert(spec_u64_to_le_bytes(spec_u64_from_le_bytes(head@)) == head@);
        assert(data@.len() as u64 == declared);
        assert(bytes@.skip(pos as int) =~= length_prefixed(data@) + bytes@.skip(next as int));
    }
    Some((data, next))
}

/// Writes an envelope in its wire form.
pub fn envelope_to_bytes(envelope: &EncryptedMessage) -> (out: Vec<u8>)
    ensures
        out@ == envelope_bytes(envelope@),
        encodable(envelope@),
{
    proof {
        envelope.lemma_lengths();
    }
    let mut out: Vec<u8> = Vec::new();
    write_prefixed(&mut out, envelope.nonce());
    write_prefixed(&mut out, envelope.ciphertext());
    match envelope.associated_data() {
        Some(data) => {
            out.push(1u8);
            write_prefixed(&mut out, data);
        },
        None => {
            out.push(0u8);
        },
    }
    assert(out@ =~= envelope_bytes(envelope@));
    out
}

/// Reads an envelope from its wire form.
///
/// Returns the envelope whose wire form the bytes are, or `None` where
/// they are the wire form of no envelope.
pub fn envelope_from_bytes(bytes: &[u8]) -> (res: Option<EncryptedMessage>)
    ensures
        res matches Some(envelope) ==> envelope_bytes(envelope@) == bytes@ && encodable(
            envelope@,
        ),
        res is None ==> forall|envelope: EnvelopeView|
            encodable(envelope) ==> envelope_bytes(envelope) != bytes@,
{
    assert(bytes@.skip(0) =~= bytes@);
    let (nonce, after_nonce) = match read_prefixed(bytes, 0) {
        Some(found) => found,
        None => {
            return None;
        },
    };
    let (ciphertext, after_ciphertext) = match read_prefixed(bytes, after_nonce) {
        Some(found) => found,
        None => {
            assert forall|envelope: EnvelopeView| encodable(envelope) implies envelope_bytes(
                envelope,
            ) != bytes@ by {
                if envelope_bytes(envelope) == bytes@ {
                    lemma_prefixed_unique(
                        envelope.nonce,
                        length_prefixed(envelope.ciphertext) + optional_field(
                            envelope.associated_data,
                        ),
                        nonce@,
                        bytes@.skip(after_nonce as int),
                    );
                }
            }
            return None;
        },
    };
    let ghost tail = bytes@.skip(after_ciphertext as int);
    proof {
        assert forall|envelope: EnvelopeView|
            encodable(envelope) && envelope_bytes(envelope) == bytes@ implies envelope.nonce
            == nonce@ && envelope.ciphertext == ciphertext@ && optional_field(
            envelope.associated_data,
        ) == tail by {
            lemma_prefixed_unique(
                envelope.nonce,
                length_prefixed(envelope.ciphertext) + optional_field(envelope.associated_data),
                nonce@,
                bytes@.skip(after_nonce as int),
            );
            lemma_prefixed_unique(
                envelope.ciphertext,
                optional_field(envelope.associated_data),
                ciphertext@,
                tail,
            );
        }
    }
    if after_ciphertext >= bytes.len() {
        assert forall|envelope: EnvelopeView| encodable(envelope) implies envelope_bytes(
            envelope,
        ) != bytes@ by {
            assert(optional_field(envelope.associated_data).len() >= 1);
        }
        return None;
    }
    let flag = bytes[after_ciphertext];
    assert(tail[0] == flag);
    if flag == 0 {
        if after_ciphertext + 1 != bytes.len() {
            assert forall|envelope: EnvelopeView| encodable(envelope) implies envelope_bytes(
                envelope,
            ) != bytes@ by {
                if envelope_bytes(envelope) == bytes@ {
                    assert(optional_field(envelope.associated_data)[0] == 0u8);
                    assert(envelope.associated_data is None);
                }
            }
            return None;
        }
        let envelope = EncryptedMessage::from_parts(nonce, ciphertext, None);
        proof {
            envelope.lemma_lengths();
        }
        assert(tail =~= seq![0u8]);
        assert(envelope_bytes(envelope@) =~= bytes@);
        Some(envelope)
    } else if flag == 1 {
        assert(tail.skip(1) =~= bytes@.skip(after_ciphertext as int + 1));
        let (data, end) = match read_prefixed(bytes, after_ciphertext + 1) {
            Some(found) => found,
            None => {
                assert forall|envelope: EnvelopeView| encodable(envelope) implies envelope_bytes(
                    envelope,
                ) != bytes@ by {
                    if envelope_bytes(envelope) == bytes@ {
                        assert(optional_field(envelope.associated_data)[0] == 1u8);
                        let d = envelope.associated_data->Some_0;
                        assert(tail.skip(1) =~= length_prefixed(d) + Seq::<u8>::empty());
                    }
                }
                return None;
            },
        };
        if end != bytes.len() {
            assert forall|envelope: EnvelopeView| encodable(envelope) implies envelope_bytes(
                envelope,
            ) != bytes@ by {
                if envelope_bytes(envelope) == bytes@ {
                    assert(optional_field(envelope.associated_data)[0] == 1u8);
                    let d = envelope.associated_data->Some_0;
                    assert(tail.skip(1) =~= length_prefixed(d) + Seq::<u8>::empty());
                    lemma_prefixed_unique(
                        d,
                        Seq::<u8>::empty(),
                        data@,
                        bytes@.skip(end as int),
                    );
                }
            }
            return None;
        }
        let ghost data_view = data@;
        let envelope = EncryptedMessage::from_parts(nonce, ciphertext, Some(data));
        proof {
            envelope.lemma_lengths();
            assert(bytes@.skip(end as int) =~= Seq::<u8>::empty());
            assert(tail =~= seq![1u8] + tail.skip(1));
            assert(tail.skip(1) =~= length_prefixed(data_view));
            assert(envelope_bytes(envelope@) =~= bytes@);
        }
        Some(envelope)
    } else {
        assert forall|envelope: EnvelopeView| encodable(envelope) implies envelope_bytes(
            envelope,
        ) != bytes@ by {
            if envelope_bytes(envelope) == bytes@ {
                assert(optional_field(envelope.associated_data)[0] == flag);
            }
        }
        return None;
    }
}

/// Sealing and opening survive the wire: whatever is read back from the
/// wire form of a sealing of a plaintext opens, under the same key, to that
/// plaintext.
pub proof fn law_wire_round_trip(
    key: Seq<u8>,
    plaintext: Seq<u8>,
    associated_data: Option<Seq<u8>>,
    sent: EnvelopeView,
    received: EnvelopeView,
)
    requires
        encodable(sent),
        encodable(received),
        sent.is_sealing_of(key, plaintext, associated_data),
        envelope_bytes(received) == envelope_bytes(sent),
    ensures
        received == sent,
        open_outcome(key, received) == Ok::<Seq<u8>, ErrorKind>(plaintext),
{
    law_wire_form_is_injective(received, sent);
}

} // verus!
