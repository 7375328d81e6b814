//! Messages as text: what a client stores and sends in a message's content.
//!
//! A sealed message travels as the hexadecimal text of its envelope's wire
//! form. The plaintext of a message is the UTF-8 encoding of its content.

use crate::agreement::SharedSecret;
use crate::cipher::{open, open_outcome, seal, sealable, EnvelopeView};
use crate::envelope::{
    encodable, envelope_bytes, envelope_from_bytes, envelope_to_bytes, law_wire_form_is_injective,
};
use crate::error::{CryptoError, ErrorKind};
use crate::hex::{hex_chars, hex_decode, hex_encode, law_hex_is_injective};
use crate::text::string_from_utf8;
use vstd::prelude::*;
use vstd::string::*;
use vstd::utf8::{decode_utf8, encode_utf8, encode_utf8_decode_utf8, encode_utf8_valid_utf8, valid_utf8};

verus! {

/// The text of an envelope.
pub open spec fn envelope_text(envelope: EnvelopeView) -> Seq<char> {
    hex_chars(envelope_bytes(envelope))
}

/// What opening an envelope as text gives: the failure of [`open_outcome`],
/// or the characters that the plaintext encodes, or a malformed message
/// where the plaintext is not UTF-8.
pub open spec fn text_outcome(key: Seq<u8>, envelope: EnvelopeView) -> Result<Seq<char>, ErrorKind> {
    match open_outcome(key, envelope) {
        Ok(plaintext) => if valid_utf8(plaintext) {
            Ok(decode_utf8(plaintext))
        } else {
            Err(ErrorKind::InvalidMessageFormat)
        },
        Err(kind) => Err(kind),
    }
}

/// True when the executable result `res` is the outcome `outcome`.
pub open spec fn is_text_outcome(
    res: Result<String, CryptoError>,
    outcome: Result<Seq<char>, ErrorKind>,
) -> bool {
    match outcome {
        Ok(chars) => res matches Ok(text) && text@ == chars,
        Err(kind) => res matches Err(e) && e.spec_kind() == kind,
    }
}

/// Seals and opens the text of messages under one key.
pub struct CryptoManager {
    key: SharedSecret,
}

impl View for CryptoManager {
    type V = Seq<u8>;

    closed spec fn view(&self) -> Seq<u8> {
        self.key@
    }
}

impl CryptoManager {
    /// A manager with a fresh random key. Fails, with `KeyGenerationError`,
    /// only where the entropy source is unavailable.
    pub fn new() -> (res: Result<CryptoManager, CryptoError>)
        ensures
            res matches Err(e) ==> e.kind() == ErrorKind::KeyGeneration,
    {
        match SharedSecret::random() {
            Ok(key) => Ok(CryptoManager { key }),
            Err(e) => Err(e),
        }
    }

    /// A manager for the given key, such as the key of a conversation.
    pub fn with_key(key: SharedSecret) -> (manager: CryptoManager)
        ensures
            manager@ == key@,
    {
        CryptoManager { key }
    }

    /// Seals a message's content and returns the text of the envelope.
    ///
    /// The text that comes back is that of an envelope which is a sealing
    /// of the content's UTF-8 bytes, without associated data. Content that
    /// is too long is refused as an `EncryptionError`; the only other
    /// failure is a `KeyGenerationError`, where the entropy source is
    /// unavailable.
    pub fn encrypt_message(&self, content: &str) -> (res: Result<String, CryptoError>)
        ensures
            res matches Ok(text) ==> exists|envelope: EnvelopeView|
                #![trigger envelope_bytes(envelope)]
                {
                    &&& encodable(envelope)
                    &&& text@ == envelope_text(envelope)
                    &&& envelope.is_sealing_of(self@, encode_utf8(content@), None)
                },
            !sealable(encode_utf8(content@), None) ==> (res matches Err(e) && e.kind()
                == ErrorKind::Encryption),
            sealable(encode_utf8(content@), None) ==> (res matches Err(e) ==> e.kind()
                == ErrorKind::KeyGeneration),
    {
        let plaintext = content.as_bytes();
        match seal(&self.key, plaintext, None) {
            Ok(envelope) => {
                let wire = envelope_to_bytes(&envelope);
                let text = hex_encode(wire.as_slice());
                proof {
                    assert(encodable(envelope@));
                    assert(text@ == envelope_text(envelope@));
                }
                Ok(text)
            },
            Err(e) => Err(e),
        }
    }

    /// Opens a message that was received as text and returns its content.
    ///
    /// Text that is the text of no envelope is refused as an
    /// `InvalidMessageFormat`. For the text of an envelope the answer is
    /// the [`text_outcome`] of that envelope.
    pub fn decrypt_message(&self, message: &str) -> (res: Result<String, CryptoError>)
        ensures
            (forall|envelope: EnvelopeView|
                encodable(envelope) ==> #[trigger] envelope_text(envelope) != message@) ==> (
            res matches Err(e) && e.kind() == ErrorKind::InvalidMessageFormat),
            forall|envelope: EnvelopeView|
                encodable(envelope) && #[trigger] envelope_text(envelope) == message@
                    ==> is_text_outcome(res, text_outcome(self@, envelope)),
    {
        let wire = match hex_decode(message) {
            Some(wire) => wire,
            None => {
                return Err(
                    CryptoError::new(
                        ErrorKind::InvalidMessageFormat,
                        "the message is not hexadecimal text",
                    ),
                );
            },
        };
        let envelope = match envelope_from_bytes(wire.as_slice()) {
            Some(envelope) => envelope,
            None => {
                proof {
                    assert forall|envelope: EnvelopeView| encodable(envelope) implies 
                        #[trigger] envelope_text(envelope) != message@ by {
                        if envelope_text(envelope) == message@ {
                            law_hex_is_injective(envelope_bytes(envelope), wire@);
                        }
                    }
                }
                return Err(
                    CryptoError::new(
                        ErrorKind::InvalidMessageFormat,
                        "the message is not the text of an envelope",
                    ),
                );
            },
        };
        proof {
            assert(encodable(envelope@));
            assert forall|other: EnvelopeView|
                encodable(other) && #[trigger] envelope_text(other) == message@ implies other
                == envelope@ by {
                law_hex_is_injective(envelope_bytes(other), wire@);
                law_wire_form_is_injective(other, envelope@);
            }
            assert(envelope_text(envelope@) == message@);
        }
        let plaintext = match open(&self.key, &envelope) {
            Ok(plaintext) => plaintext,
            Err(e) => {
                return Err(e);
            },
        };
        match string_from_utf8(plaintext) {
            Some(content) => Ok(content),
            None => Err(
                CryptoError::new(
                    ErrorKind::InvalidMessageFormat,
                    "the message's plaintext is not UTF-8 text",
                ),
            ),
        }
    }
}

/// Text round trip: the text of an envelope that is a sealing of a
/// content's UTF-8 bytes opens, under the same key, to that content.
pub proof fn law_text_round_trip(key: Seq<u8>, content: Seq<char>, envelope: EnvelopeView)
    requires
        envelope.is_sealing_of(key, encode_utf8(content), None),
    ensures
        text_outcome(key, envelope) == Ok::<Seq<char>, ErrorKind>(content),
{
    encode_utf8_valid_utf8(content);
    encode_utf8_decode_utf8(content);
}

} // verus!
