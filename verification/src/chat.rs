//! The state behind the desktop client's chat screen, without any drawing.

use crate::cipher::{sealable, EnvelopeView};
use crate::envelope::{encodable, envelope_bytes};
use crate::error::{CryptoError, ErrorKind};
use crate::manager::{envelope_text, text_outcome, CryptoManager};
use crate::models::{Message, MessageView, User, UserView};
use vstd::prelude::*;
use vstd::string::*;
use vstd::utf8::encode_utf8;

verus! {

/// True for the characters that have the Unicode property White_Space.
pub open spec fn is_white_space(c: char) -> bool {
    ||| '\u{9}' <= c <= '\u{d}'
    ||| c == ' '
    ||| c == '\u{85}'
    ||| c == '\u{a0}'
    ||| c == '\u{1680}'
    ||| '\u{2000}' <= c <= '\u{200a}'
    ||| c == '\u{2028}'
    ||| c == '\u{2029}'
    ||| c == '\u{202f}'
    ||| c == '\u{205f}'
    ||| c == '\u{3000}'
}

/// A text without the white space at its start.
pub open spec fn without_leading_white_space(text: Seq<char>) -> Seq<char>
    decreases text.len(),
{
    if text.len() > 0 && is_white_space(text.first()) {
        without_leading_white_space(text.drop_first())
    } else {
        text
    }
}

/// A text without the white space at its end.
pub open spec fn without_trailing_white_space(text: Seq<char>) -> Seq<char>
    decreases text.len(),
{
    if text.len() > 0 && is_white_space(text.last()) {
        without_trailing_white_space(text.drop_last())
    } else {
        text
    }
}

/// A text without the white space at its two ends.
pub open spec fn trimmed(text: Seq<char>) -> Seq<char> {
    without_trailing_white_space(without_leading_white_space(text))
}

/// Trusted: `str::trim` of the standard library, which removes leading and
/// trailing white space, where white space is what Unicode gives the
/// property White_Space.
#[verifier::external_body]
fn trim(text: &str) -> (res: &str)
    ensures
        res@ == trimmed(text@),
{
    text.trim()
}

/// What a [`ChatScreen`] holds.
pub struct ChatScreenView {
    pub user: UserView,
    pub messages: Seq<MessageView>,
    pub new_message: Seq<char>,
    pub selected_contact: Option<u128>,
}

impl ChatScreenView {
    /// True when the draft can be sent: a contact is selected and the
    /// draft is more than white space.
    pub open spec fn can_send(self) -> bool {
        self.selected_contact is Some && trimmed(self.new_message).len() > 0
    }
}

/// The chat screen: the user, the messages of the open chat, the draft and
/// the contact that the draft is for.
pub struct ChatScreen {
    user: User,
    messages: Vec<Message>,
    new_message: String,
    selected_contact: Option<u128>,
}

impl View for ChatScreen {
    type V = ChatScreenView;

    closed spec fn view(&self) -> ChatScreenView {
        ChatScreenView {
            user: self.user@,
            messages: Seq::new(self.messages@.len(), |i: int| self.messages@[i]@),
            new_message: self.new_message@,
            selected_contact: self.selected_contact,
        }
    }
}

/// The text to show for a message under a key: the content of a message
/// that is not marked as encrypted; for one that is, the content that its
/// envelope opens to, and the stored content itself where it does not open.
pub open spec fn shown_as(text: Seq<char>, key: Seq<u8>, message: MessageView) -> bool {
    if !message.is_encrypted {
        text == message.content
    } else {
        &&& (forall|envelope: EnvelopeView|
            encodable(envelope) ==> #[trigger] envelope_text(envelope) != message.content)
            ==> text == message.content
        &&& forall|envelope: EnvelopeView|
            encodable(envelope) && #[trigger] envelope_text(envelope) == message.content ==> text
                == match text_outcome(key, envelope) {
                Ok(content) => content,
                Err(_) => message.content,
            }
    }
}

impl ChatScreen {
    /// A chat screen for the user with the given messages, an empty draft
    /// and no contact selected.
    pub fn new(user: &User, messages: &[Message]) -> (screen: ChatScreen)
        ensures
            screen@.user == user@,
            screen@.messages == Seq::new(messages@.len(), |i: int| messages@[i]@),
            screen@.new_message == Seq::<char>::empty(),
            screen@.selected_contact is None,
    {
        let mut copies: Vec<Message> = Vec::new();
        let mut i: usize = 0;
        while i < messages.len()
            invariant
                i <= messages@.len(),
                copies@.len() == i,
                forall|j: int| 0 <= j < i ==> copies@[j]@ == messages@[j]@,
            decreases messages@.len() - i,
        {
            copies.push(messages[i].duplicate());
            i += 1;
        }
        let screen = ChatScreen {
            user: user.duplicate(),
            messages: copies,
            new_message: String::new(),
            selected_contact: None,
        };
        assert(screen@.messages =~= Seq::new(messages@.len(), |i: int| messages@[i]@));
        screen
    }

    /// Opens the chat with a contact.
    pub fn select_contact(&mut self, contact: u128)
        ensures
            final(self)@ == (ChatScreenView { selected_contact: Some(contact), ..old(self)@ }),
    {
        self.selected_contact = Some(contact);
        assert(self@.messages =~= old(self)@.messages);
    }

    /// Takes what was typed into the message field.
    pub fn set_draft(&mut self, text: String)
        ensures
            final(self)@ == (ChatScreenView { new_message: text@, ..old(self)@ }),
    {
        self.new_message = text;
        assert(self@.messages =~= old(self)@.messages);
    }

    /// The draft as typed.
    pub fn draft(&self) -> (text: &str)
        ensures
            text@ == self@.new_message,
    {
        self.new_message.as_str()
    }

    /// The contact whose chat is open, if any.
    pub fn selected_contact(&self) -> (contact: Option<u128>)
        ensures
            contact == self@.selected_contact,
    {
        self.selected_contact
    }

    /// True when the draft can be sent: a contact is selected and the draft
    /// is more than white space.
    pub fn can_send(&self) -> (ready: bool)
        ensures
            ready == self@.can_send(),
    {
        self.selected_contact.is_some() && !trim(self.new_message.as_str()).is_empty()
    }

    /// The number of messages shown.
    pub fn message_count(&self) -> (count: usize)
        ensures
            count == self@.messages.len(),
    {
        self.messages.len()
    }

    /// The message at a position, or `None` past the end.
    pub fn message(&self, index: usize) -> (message: Option<&Message>)
        ensures
            index < self@.messages.len() ==> (message matches Some(m) && m@
                == self@.messages[index as int]),
            index >= self@.messages.len() ==> message is None,
    {
        if index < self.messages.len() {
            Some(&self.messages[index])
        } else {
            None
        }
    }

    /// True when the user wrote the message, which is then drawn on the
    /// right.
    pub fn is_own(&self, message: &Message) -> (own: bool)
        ensures
            own == (message@.sender_id == self@.user.id),
    {
        message.sender_id == self.user.id
    }

    /// The text to show for a message.
    pub fn shown_text(&self, crypto: &CryptoManager, message: &Message) -> (text: String)
        ensures
            shown_as(text@, crypto@, message@),
    {
        if !message.is_encrypted {
            return message.content.clone();
        }
        match crypto.decrypt_message(message.content.as_str()) {
            Ok(content) => content,
            Err(_) => message.content.clone(),
        }
    }

    /// Makes the message to send from the draft, when "Send" is chosen.
    ///
    /// Nothing is made where no contact is selected or the draft is only
    /// white space. Otherwise the draft is sealed: the message is from the
    /// user, is marked as encrypted, and carries the text of an envelope
    /// that is a sealing of the draft. A draft that cannot be sealed is an
    /// error, and is never sent in the clear instead.
    pub fn compose(&self, crypto: &CryptoManager, id: u128, timestamp: u64) -> (res: Result<
        Option<Message>,
        CryptoError,
    >)
        ensures
            !self@.can_send() ==> res matches Ok(None),
            self@.can_send() ==> (res matches Ok(made) ==> made matches Some(message) && {
                &&& message@.id == id
                &&& message@.sender_id == self@.user.id
                &&& message@.timestamp == timestamp
                &&& message@.is_encrypted
                &&& exists|envelope: EnvelopeView|
                    #![trigger envelope_bytes(envelope)]
                    {
                        &&& encodable(envelope)
                        &&& message@.content == envelope_text(envelope)
                        &&& envelope.is_sealing_of(crypto@, encode_utf8(self@.new_message), None)
                    }
            }),
            self@.can_send() && !sealable(encode_utf8(self@.new_message), None) ==> (
            res matches Err(e) && e.kind() == ErrorKind::Encryption),
            self@.can_send() && sealable(encode_utf8(self@.new_message), None) ==> (
            res matches Err(e) ==> e.kind() == ErrorKind::KeyGeneration),
    {
        if !self.can_send() {
            return Ok(None);
        }
        match crypto.encrypt_message(self.new_message.as_str()) {
            Ok(content) => Ok(
                Some(
                    Message {
                        id,
                        sender_id: self.user.id,
                        content,
                        timestamp,
                        is_encrypted: true,
                    },
                ),
            ),
            Err(e) => Err(e),
        }
    }

    /// Takes note that the server accepted a message: the message joins
    /// those shown and the draft is cleared.
    pub fn message_sent(&mut self, message: Message)
        ensures
            final(self)@ == (ChatScreenView {
                messages: old(self)@.messages.push(message@),
                new_message: Seq::<char>::empty(),
                ..old(self)@
            }),
    {
        self.messages.push(message);
        self.new_message = String::new();
        assert(self@.messages =~= old(self)@.messages.push(message@));
    }
}

} // verus!
