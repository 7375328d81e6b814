//! The records that the clients and the server exchange. Identifiers are
//! 128-bit numbers and times are seconds since the Unix epoch.

use crate::bytes::to_vec;
use crate::cipher::{EncryptedMessage, EnvelopeView};
use crate::session::SessionBinding;
use vstd::prelude::*;
use vstd::string::*;

verus! {

/// What a member of a group chat may do.
#[derive(Debug, Clone, Copy, PartialEq, Eq, Structural)]
pub enum ChatRole {
    Admin,
    Member,
    ReadOnly,
}

/// What a [`User`] holds.
pub struct UserView {
    pub id: u128,
    pub username: Seq<char>,
    pub email: Seq<char>,
    pub public_key: Seq<u8>,
}

/// A principal as the clients know it: a stable identifier and the
/// long-term public key that was registered for it.
#[derive(Debug, Clone, PartialEq, Eq)]
pub struct User {
    pub id: u128,
    pub username: String,
    pub email: String,
    pub public_key: Vec<u8>,
}

impl View for User {
    type V = UserView;

    open spec fn view(&self) -> UserView {
        UserView {
            id: self.id,
            username: self.username@,
            email: self.email@,
            public_key: self.public_key@,
        }
    }
}

impl User {
    /// A copy of the record.
    pub fn duplicate(&self) -> (copy: User)
        ensures
            copy@ == self@,
    {
        User {
            id: self.id,
            username: self.username.clone(),
            email: self.email.clone(),
            public_key: to_vec(self.public_key.as_slice()),
        }
    }
}

/// What a [`Message`] holds.
pub struct MessageView {
    pub id: u128,
    pub sender_id: u128,
    pub content: Seq<char>,
    pub timestamp: u64,
    pub is_encrypted: bool,
}

/// A message as a client keeps it. Where `is_encrypted` is set the content
/// is the text of a sealed envelope, else it is the message itself.
#[derive(Debug, Clone, PartialEq, Eq)]
pub struct Message {
    pub id: u128,
    pub sender_id: u128,
    pub content: String,
    pub timestamp: u64,
    pub is_encrypted: bool,
}

impl View for Message {
    type V = MessageView;

    open spec fn view(&self) -> MessageView {
        MessageView {
            id: self.id,
            sender_id: self.sender_id,
            content: self.content@,
            timestamp: self.timestamp,
            is_encrypted: self.is_encrypted,
        }
    }
}

impl Message {
    /// A copy of the message.
    pub fn duplicate(&self) -> (copy: Message)
        ensures
            copy@ == self@,
    {
        Message {
            id: self.id,
            sender_id: self.sender_id,
            content: self.content.clone(),
            timestamp: self.timestamp,
            is_encrypted: self.is_encrypted,
        }
    }
}

/// What a [`SealedMessage`] holds.
pub struct SealedMessageView {
    pub id: u128,
    pub sender_id: u128,
    pub recipient_id: u128,
    pub envelope: EnvelopeView,
    pub created_at: u64,
    pub expires_at: Option<u64>,
}

/// A message as the server stores it: an opaque envelope, the principal
/// that sent it and the principal that may fetch it. The server never sees
/// a plaintext.
#[derive(Debug, Clone, PartialEq, Eq)]
pub struct SealedMessage {
    id: u128,
    sender_id: u128,
    recipient_id: u128,
    envelope: EncryptedMessage,
    created_at: u64,
    expires_at: Option<u64>,
}

impl View for SealedMessage {
    type V = SealedMessageView;

    closed spec fn view(&self) -> SealedMessageView {
        SealedMessageView {
            id: self.id,
            sender_id: self.sender_id,
            recipient_id: self.recipient_id,
            envelope: self.envelope@,
            created_at: self.created_at,
            expires_at: self.expires_at,
        }
    }
}

impl SealedMessage {
    /// Accepts an envelope for storage on behalf of a validated session.
    ///
    /// The sender of the stored message is the principal of the session:
    /// there is no way to name another one.
    pub fn accept(
        session: &SessionBinding,
        id: u128,
        recipient_id: u128,
        envelope: EncryptedMessage,
        now: u64,
        expires_at: Option<u64>,
    ) -> (message: SealedMessage)
        ensures
            message@ == (SealedMessageView {
                id,
                sender_id: session.principal_id,
                recipient_id,
                envelope: envelope@,
                created_at: now,
                expires_at,
            }),
    {
        SealedMessage {
            id,
            sender_id: session.principal_id,
            recipient_id,
            envelope,
            created_at: now,
            expires_at,
        }
    }

    /// Puts a stored message together from the columns of its row.
    pub fn from_parts(
        id: u128,
        sender_id: u128,
        recipient_id: u128,
        envelope: EncryptedMessage,
        created_at: u64,
        expires_at: Option<u64>,
    ) -> (message: SealedMessage)
        ensures
            message@ == (SealedMessageView {
                id,
                sender_id,
                recipient_id,
                envelope: envelope@,
                created_at,
                expires_at,
            }),
    {
        SealedMessage { id, sender_id, recipient_id, envelope, created_at, expires_at }
    }

    /// The message's identifier.
    pub fn id(&self) -> (id: u128)
        ensures
            id == self@.id,
    {
        self.id
    }

    /// The principal that sent the message.
    pub fn sender_id(&self) -> (id: u128)
        ensures
            id == self@.sender_id,
    {
        self.sender_id
    }

    /// The principal that may fetch the message.
    pub fn recipient_id(&self) -> (id: u128)
        ensures
            id == self@.recipient_id,
    {
        self.recipient_id
    }

    /// The sealed payload.
    pub fn envelope(&self) -> (envelope: &EncryptedMessage)
        ensures
            envelope@ == self@.envelope,
    {
        &self.envelope
    }

    /// The time at which the server accepted the message.
    pub fn created_at(&self) -> (time: u64)
        ensures
            time == self@.created_at,
    {
        self.created_at
    }

    /// The first second at which the message is no longer handed out,
    /// where the sender set one.
    pub fn expires_at(&self) -> (time: Option<u64>)
        ensures
            time == self@.expires_at,
    {
        self.expires_at
    }
}

} // verus!
