//! The mobile client's core: its settings and its message cipher. The
//! network and the local store are the caller's.

use crate::cipher::{sealable, EnvelopeView};
use crate::config::{Config, ConfigView};
use crate::envelope::{encodable, envelope_bytes};
use crate::error::{CryptoError, ErrorKind};
use crate::manager::{envelope_text, is_text_outcome, text_outcome, CryptoManager};
use crate::models::{Message, User};
use vstd::prelude::*;
use vstd::string::*;
use vstd::utf8::encode_utf8;

verus! {

/// What a [`PulseMobile`] holds.
pub struct PulseMobileView {
    pub config: ConfigView,
    pub key: Seq<u8>,
}

/// The mobile client.
pub struct PulseMobile {
    config: Config,
    crypto: CryptoManager,
}

impl View for PulseMobile {
    type V = PulseMobileView;

    closed spec fn view(&self) -> PulseMobileView {
        PulseMobileView { config: self.config@, key: self.crypto@ }
    }
}

impl PulseMobile {
    /// A client with the given settings and a fresh message key. Fails,
    /// with `KeyGenerationError`, only where the entropy source is
    /// unavailable.
    pub fn new(config: Config) -> (res: Result<PulseMobile, CryptoError>)
        ensures
            res matches Ok(client) ==> client@.config == config@,
            res matches Err(e) ==> e.kind() == ErrorKind::KeyGeneration,
    {
        match CryptoManager::new() {
            Ok(crypto) => Ok(PulseMobile { config, crypto }),
            Err(e) => Err(e),
        }
    }

    /// A client with the given settings that seals under the given
    /// manager's key.
    pub fn with_manager(config: Config, crypto: CryptoManager) -> (client: PulseMobile)
        ensures
            client@.config == config@,
            client@.key == crypto@,
    {
        PulseMobile { config, crypto }
    }

    /// The settings in force.
    pub fn config(&self) -> (config: &Config)
        ensures
            config@ == self@.config,
    {
        &self.config
    }

    /// Prepares an outgoing message from the given sender.
    ///
    /// Where the settings ask for encryption the content is sealed and the
    /// message is marked as encrypted; a content that cannot be sealed is
    /// an error, and is never sent in the clear instead. Where they do
    /// not, the message carries the content as it is.
    pub fn send_message(&self, sender: &User, id: u128, content: &str, timestamp: u64) -> (res:
        Result<Message, CryptoError>)
        ensures
            res matches Ok(message) ==> {
                &&& message@.id == id
                &&& message@.sender_id == sender@.id
                &&& message@.timestamp == timestamp
                &&& message@.is_encrypted == self@.config.auto_encrypt
            },
            !self@.config.auto_encrypt ==> (res matches Ok(message) && message@.content
                == content@),
            self@.config.auto_encrypt ==> (res matches Ok(message) ==> exists|
                envelope: EnvelopeView,
            |
                #![trigger envelope_bytes(envelope)]
                {
                    &&& encodable(envelope)
                    &&& message@.content == envelope_text(envelope)
                    &&& envelope.is_sealing_of(self@.key, encode_utf8(content@), None)
                }),
            self@.config.auto_encrypt && !sealable(encode_utf8(content@), None) ==> (
            res matches Err(e) && e.kind() == ErrorKind::Encryption),
            self@.config.auto_encrypt && sealable(encode_utf8(content@), None) ==> (
            res matches Err(e) ==> e.kind() == ErrorKind::KeyGeneration),
    {
        let text = if self.config.auto_encrypt {
            match self.crypto.encrypt_message(content) {
                Ok(text) => text,
                Err(e) => {
                    return Err(e);
                },
            }
        } else {
            String::from_str(content)
        };
        Ok(
            Message {
                id,
                sender_id: sender.id,
                content: text,
                timestamp,
                is_encrypted: self.config.auto_encrypt,
            },
        )
    }

    /// Opens a message that was received as text and returns its content.
    ///
    /// The contract is that of [`CryptoManager::decrypt_message`].
    pub fn decrypt_message(&self, message: &str) -> (res: Result<String, CryptoError>)
        ensures
            (forall|envelope: EnvelopeView|
                encodable(envelope) ==> #[trigger] envelope_text(envelope) != message@) ==> (
            res matches Err(e) && e.kind() == ErrorKind::InvalidMessageFormat),
            forall|envelope: EnvelopeView|
                encodable(envelope) && #[trigger] envelope_text(envelope) == message@
                    ==> is_text_outcome(res, text_outcome(self@.key, envelope)),
    {
        self.crypto.decrypt_message(message)
    }

    /// The text to show for a stored message: its content, opened where
    /// the message is marked as encrypted. A message that does not open is
    /// an error, and so is one whose content is the text of no envelope.
    pub fn read_message(&self, message: &Message) -> (res: Result<String, CryptoError>)
        ensures
            !message@.is_encrypted ==> (res matches Ok(text) && text@ == message@.content),
            message@.is_encrypted && (forall|envelope: EnvelopeView|
                encodable(envelope) ==> #[trigger] envelope_text(envelope) != message@.content)
                ==> (res matches Err(e) && e.kind() == ErrorKind::InvalidMessageFormat),
            message@.is_encrypted ==> forall|envelope: EnvelopeView|
                encodable(envelope) && #[trigger] envelope_text(envelope) == message@.content
                    ==> is_text_outcome(res, text_outcome(self@.key, envelope)),
    {
        if message.is_encrypted {
            self.crypto.decrypt_message(message.content.as_str())
        } else {
            Ok(message.content.clone())
        }
    }

    /// Puts new settings in force. The caller writes them to disk.
    pub fn update_config(&mut self, config: Config)
        ensures
            final(self)@.config == config@,
            final(self)@.key == old(self)@.key,
    {
        self.config = config;
    }
}

} // verus!
