//! Confidentiality and session-authentication core of the Pulse messenger.
//!
//! The crate gives each principal its key pairs (`identity`, `signing`),
//! derives one symmetric key for each conversation of two principals
//! (`agreement`, `conversations`), seals and opens message payloads under
//! such a key (`cipher`, `sealer`), writes envelopes and tokens in the forms
//! in which they travel (`envelope`, `hex`, `manager`, `token_text`), and
//! issues and validates time-bounded session tokens (`session`). The
//! clients' state that surrounds these (`config`, `models`, `ui`, `chat`,
//! `mobile`) is kept here as well, free of any drawing, network or disk.
//!
//! Every executable function carries a contract that Verus proves. The
//! calls into the cryptographic crates stand behind small trusted
//! functions, each of which says in its documentation what is believed of
//! the outside code; contracts speak of those results by name.

pub mod error;
pub mod entropy;
pub mod bytes;
pub mod text;
pub mod hex;
pub mod identity;
pub mod agreement;
pub mod cipher;
pub mod sealer;
pub mod envelope;
pub mod signing;
pub mod session;
pub mod token_text;
pub mod crypto;
pub mod conversations;
pub mod manager;
pub mod config;
pub mod models;
pub mod ui;
pub mod chat;
pub mod mobile;

pub use agreement::{agree, agree_for_conversation, agree_once, SharedSecret};
pub use cipher::{open, open_expecting, seal, EncryptedMessage};
pub use conversations::Conversations;
pub use crypto::Crypto;
pub use error::{AuthError, CryptoError, ErrorKind};
pub use identity::{generate_identity, public_of, KeyPair, Principal, PublicKey};
pub use session::{
    issue_session, validate_session, RevocationList, SessionAuthority, SessionBinding,
    SessionToken,
};
pub use signing::{sign, verify, SigningKeyPair};
