//! The form in which a session token is presented: the hexadecimal text of
//! the token's 64-byte body followed by the UTF-8 bytes of its signature.
//!
//! Exactly the texts that are written this way are read back. Reading a
//! token proves nothing about it: validation decides.

use crate::bytes::to_vec;
use crate::hex::{hex_chars, hex_decode, hex_encode, law_hex_is_injective};
use crate::session::{SessionToken, TokenView, TOKEN_BODY_LEN};
use crate::text::string_from_utf8;
use vstd::bytes::{
    lemma_auto_spec_u128_to_from_le_bytes, lemma_auto_spec_u64_to_from_le_bytes,
    spec_u128_from_le_bytes, spec_u128_to_le_bytes, spec_u64_from_le_bytes, spec_u64_to_le_bytes,
    u128_from_le_bytes, u64_from_le_bytes,
};
use vstd::prelude::*;
use vstd::slice::slice_subrange;
use vstd::string::*;
use vstd::utf8::{
    decode_utf8_encode_utf8, encode_utf8, encode_utf8_decode_utf8, encode_utf8_valid_utf8,
};

verus! {

/// The bytes of a token: its body, then its signature in UTF-8.
pub open spec fn token_bytes(token: TokenView) -> Seq<u8> {
    token.body() + encode_utf8(token.signature)
}

/// The text of a token.
pub open spec fn token_text(token: TokenView) -> Seq<char> {
    hex_chars(token_bytes(token))
}

/// A token's body is 64 bytes, from which each field is read back.
pub proof fn lemma_body_fields(token: TokenView)
    ensures
        token.body().len() == TOKEN_BODY_LEN,
        token.body().subrange(0, 16) == spec_u128_to_le_bytes(token.id),
        token.body().subrange(16, 32) == spec_u128_to_le_bytes(token.principal_id),
        token.body().subrange(32, 48) == spec_u128_to_le_bytes(token.device_id),
        token.body().subrange(48, 56) == spec_u64_to_le_bytes(token.issued_at),
        token.body().subrange(56, 64) == spec_u64_to_le_bytes(token.expires_at),
{
    lemma_auto_spec_u128_to_from_le_bytes();
    lemma_auto_spec_u64_to_from_le_bytes();
    let body = token.body();
    assert(body.subrange(0, 16) =~= spec_u128_to_le_bytes(token.id));
    assert(body.subrange(16, 32) =~= spec_u128_to_le_bytes(token.principal_id));
    assert(body.subrange(32, 48) =~= spec_u128_to_le_bytes(token.device_id));
    assert(body.subrange(48, 56) =~= spec_u64_to_le_bytes(token.issued_at));
    assert(body.subrange(56, 64) =~= spec_u64_to_le_bytes(token.expires_at));
}

/// Two tokens with the same bytes are the same.
pub proof fn law_token_bytes_are_injective(a: TokenView, b: TokenView)
    requires
        token_bytes(a) == token_bytes(b),
    ensures
        a == b,
{
    lemma_auto_spec_u128_to_from_le_bytes();
    lemma_auto_spec_u64_to_from_le_bytes();
    lemma_body_fields(a);
    lemma_body_fields(b);
    assert(token_bytes(a).subrange(0, 64) =~= a.body());
    assert(token_bytes(b).subrange(0, 64) =~= b.body());
    assert(token_bytes(a).skip(64) =~= encode_utf8(a.signature));
    assert(token_bytes(b).skip(64) =~= encode_utf8(b.signature));
    assert(spec_u128_from_le_bytes(spec_u128_to_le_bytes(a.id)) == a.id);
    assert(spec_u128_from_le_bytes(spec_u128_to_le_bytes(b.id)) == b.id);
    assert(spec_u128_from_le_bytes(spec_u128_to_le_bytes(a.principal_id)) == a.principal_id);
    assert(spec_u128_from_le_bytes(spec_u128_to_le_bytes(b.principal_id)) == b.principal_id);
    assert(spec_u128_from_le_bytes(spec_u128_to_le_bytes(a.device_id)) == a.device_id);
    assert(spec_u128_from_le_bytes(spec_u128_to_le_bytes(b.device_id)) == b.device_id);
    assert(spec_u64_from_le_bytes(spec_u64_to_le_bytes(a.issued_at)) == a.issued_at);
    assert(spec_u64_from_le_bytes(spec_u64_to_le_bytes(b.issued_at)) == b.issued_at);
    assert(spec_u64_from_le_bytes(spec_u64_to_le_bytes(a.expires_at)) == a.expires_at);
    assert(spec_u64_from_le_bytes(spec_u64_to_le_bytes(b.expires_at)) == b.expires_at);
    encode_utf8_decode_utf8(a.signature);
    encode_utf8_decode_utf8(b.signature);
}

/// Two tokens with the same text are the same.
pub proof fn law_token_text_is_injective(a: TokenView, b: TokenView)
    requires
        token_text(a) == token_text(b),
    ensures
        a == b,
{
    law_hex_is_injective(token_bytes(a), token_bytes(b));
    law_token_bytes_are_injective(a, b);
}

/// Writes a token as bytes.
pub fn token_to_bytes(token: &SessionToken) -> (out: Vec<u8>)
    ensures
        out@ == token_bytes(token@),
{
    let mut out = token.body();
    out.extend_from_slice(token.signature().as_bytes());
    out
}

/// Reads a token from its bytes.
///
/// Returns the token whose bytes these are, or `None` where they are the
/// bytes of no token.
pub fn token_from_bytes(bytes: &[u8]) -> (res: Option<SessionToken>)
    ensures
        res matches Some(token) ==> token_bytes(token@) == bytes@,
        res is None ==> forall|token: TokenView| token_bytes(token) != bytes@,
{
    proof {
        lemma_auto_spec_u128_to_from_le_bytes();
        lemma_auto_spec_u64_to_from_le_bytes();
    }
    if bytes.len() < TOKEN_BODY_LEN {
        assert forall|token: TokenView| token_bytes(token) != bytes@ by {
            lemma_body_fields(token);
        }
        return None;
    }
    let tail = to_vec(slice_subrange(bytes, TOKEN_BODY_LEN, bytes.len()));
    let ghost tail_view = tail@;
    let signature = match string_from_utf8(tail) {
        Some(signature) => signature,
        None => {
            assert forall|token: TokenView| token_bytes(token) != bytes@ by {
                if token_bytes(token) == bytes@ {
                    lemma_body_fields(token);
                    assert(bytes@.skip(64) =~= encode_utf8(token.signature));
                    assert(tail_view =~= bytes@.skip(64));
                    encode_utf8_valid_utf8(token.signature);
                }
            }
            return None;
        },
    };
    let id = u128_from_le_bytes(slice_subrange(bytes, 0, 16));
    let principal_id = u128_from_le_bytes(slice_subrange(bytes, 16, 32));
    let device_id = u128_from_le_bytes(slice_subrange(bytes, 32, 48));
    let issued_at = u64_from_le_bytes(slice_subrange(bytes, 48, 56));
    let expires_at = u64_from_le_bytes(slice_subrange(bytes, 56, 64));
    let token = SessionToken::from_parts(
        id,
        principal_id,
        device_id,
        issued_at,
        expires_at,
        signature,
    );
    proof {
        decode_utf8_encode_utf8(tail_view);
        assert(encode_utf8(token@.signature) == tail_view);
        assert(spec_u128_to_le_bytes(id) == bytes@.subrange(0, 16));
        assert(spec_u128_to_le_bytes(principal_id) == bytes@.subrange(16, 32));
        assert(spec_u128_to_le_bytes(device_id) == bytes@.subrange(32, 48));
        assert(spec_u64_to_le_bytes(issued_at) == bytes@.subrange(48, 56));
        assert(spec_u64_to_le_bytes(expires_at) == bytes@.subrange(56, 64));
        assert(token_bytes(token@) =~= bytes@);
    }
    Some(token)
}

/// Writes a token as the text in which it is presented.
pub fn token_to_text(token: &SessionToken) -> (text: String)
    ensures
        text@ == token_text(token@),
{
    let bytes = token_to_bytes(token);
    hex_encode(bytes.as_slice())
}

/// Reads a presented token from its text.
///
/// Returns the token whose text this is, or `None` where it is the text of
/// no token.
pub fn token_from_text(text: &str) -> (res: Option<SessionToken>)
    ensures
        res matches Some(token) ==> token_text(token@) == text@,
        res is None ==> forall|token: TokenView| token_text(token) != text@,
{
    let bytes = match hex_decode(text) {
        Some(bytes) => bytes,
        None => {
            return None;
        },
    };
    let res = token_from_bytes(bytes.as_slice());
    proof {
        if res is None {
            assert forall|token: TokenView| token_text(token) != text@ by {
                if token_text(token) == text@ {
                    law_hex_is_injective(token_bytes(token), bytes@);
                }
            }
        }
    }
    res
}

} // verus!
