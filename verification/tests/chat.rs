use pulse_core::agreement::SharedSecret;
use pulse_core::chat::ChatScreen;
use pulse_core::manager::CryptoManager;
use pulse_core::models::{Message, User};

fn me() -> User {
    User { id: 7, username: "alice".to_string(), email: "a@example.org".to_string(), public_key: vec![] }
}

fn manager() -> CryptoManager {
    CryptoManager::with_key(SharedSecret::from_array([5u8; 32]))
}

fn plain(id: u128, sender_id: u128, content: &str) -> Message {
    Message { id, sender_id, content: content.to_string(), timestamp: 10, is_encrypted: false }
}

#[test]
fn chat_screen_starts_with_the_given_messages_and_no_draft() {
    let messages = [plain(1, 7, "mine"), plain(2, 8, "theirs")];
    let screen = ChatScreen::new(&me(), &messages);
    assert_eq!(screen.message_count(), 2);
    assert_eq!(screen.draft(), "");
    assert_eq!(screen.selected_contact(), None);
    assert_eq!(screen.message(0), Some(&messages[0]));
    assert_eq!(screen.message(2), None);
    assert!(screen.is_own(&messages[0]));
    assert!(!screen.is_own(&messages[1]));
    assert_eq!(screen.shown_text(&manager(), &messages[0]), "mine");
    assert_eq!(screen.shown_text(&manager(), &messages[1]), "theirs");
}

#[test]
fn chat_screen_shows_encrypted_messages_opened() {
    let sealed = manager().encrypt_message("hello bob").unwrap();
    let messages = [
        Message { id: 1, sender_id: 8, content: sealed.clone(), timestamp: 1, is_encrypted: true },
        Message { id: 2, sender_id: 8, content: "garbled".to_string(), timestamp: 2, is_encrypted: true },
        Message { id: 3, sender_id: 8, content: sealed.clone(), timestamp: 3, is_encrypted: false },
    ];
    let screen = ChatScreen::new(&me(), &messages);
    assert_eq!(screen.shown_text(&manager(), &messages[0]), "hello bob");
    assert_eq!(screen.shown_text(&manager(), &messages[1]), "garbled");
    assert_eq!(screen.shown_text(&manager(), &messages[2]), sealed);
    let other = CryptoManager::with_key(SharedSecret::from_array([6u8; 32]));
    assert_eq!(screen.shown_text(&other, &messages[0]), sealed);
}

#[test]
fn chat_screen_composes_nothing_without_a_contact_or_a_draft() {
    let mut screen = ChatScreen::new(&me(), &[]);
    screen.set_draft("hello".to_string());
    assert_eq!(screen.compose(&manager(), 1, 5).unwrap(), None);
    screen.select_contact(8);
    assert_eq!(screen.selected_contact(), Some(8));
    for blank in ["", " ", "\t\n ", "\u{a0}\u{2003}"] {
        screen.set_draft(blank.to_string());
        assert_eq!(screen.compose(&manager(), 1, 5).unwrap(), None);
    }
}

#[test]
fn chat_screen_composes_a_sealed_message_from_the_draft() {
    let mut screen = ChatScreen::new(&me(), &[]);
    screen.select_contact(8);
    screen.set_draft(" hello bob ".to_string());
    let message = screen.compose(&manager(), 41, 99).unwrap().unwrap();
    assert_eq!(message.id, 41);
    assert_eq!(message.sender_id, 7);
    assert_eq!(message.timestamp, 99);
    assert!(message.is_encrypted);
    assert_eq!(manager().decrypt_message(&message.content).unwrap(), " hello bob ");
    assert_eq!(screen.draft(), " hello bob ");
    screen.message_sent(message.clone());
    assert_eq!(screen.draft(), "");
    assert_eq!(screen.message_count(), 1);
    assert!(screen.is_own(&message));
    assert_eq!(screen.message(0), Some(&message));
    assert_eq!(screen.shown_text(&manager(), &message), " hello bob ");
    assert_eq!(screen.selected_contact(), Some(8));
}

fn white_space(c: char) -> bool {
    matches!(
        c as u32,
        0x9..=0xd
            | 0x20
            | 0x85
            | 0xa0
            | 0x1680
            | 0x2000..=0x200a
            | 0x2028
            | 0x2029
            | 0x202f
            | 0x205f
            | 0x3000
    )
}

#[test]
fn draft_of_any_single_character_can_be_sent_unless_it_is_white_space() {
    let mut screen = ChatScreen::new(&me(), &[]);
    screen.set_draft("x".to_string());
    assert!(!screen.can_send());
    screen.select_contact(8);
    assert!(screen.can_send());
    let mut blank = 0;
    for code in 0..=0x10ffffu32 {
        if let Some(c) = char::from_u32(code) {
            screen.set_draft(c.to_string());
            assert_eq!(screen.can_send(), !white_space(c), "U+{:04X}", code);
            if white_space(c) {
                blank += 1;
            }
        }
    }
    assert_eq!(blank, 25);
}

#[test]
fn draft_with_white_space_around_it_can_be_sent() {
    let mut screen = ChatScreen::new(&me(), &[]);
    screen.select_contact(8);
    for draft in [" a", "a ", "\n\ta\u{3000}", "a b", "\u{200b}", "\u{feff}"] {
        screen.set_draft(draft.to_string());
        assert!(screen.can_send(), "{:?}", draft);
    }
    for draft in ["", " \u{a0}\u{85}\u{1680}\u{2028}\u{2029}\u{202f}\u{205f}\u{3000}\r\n"] {
        screen.set_draft(draft.to_string());
        assert!(!screen.can_send(), "{:?}", draft);
    }
}
