use pulse_core::agreement::SharedSecret;
use pulse_core::cipher::EncryptedMessage;
use pulse_core::config::Config;
use pulse_core::error::ErrorKind;
use pulse_core::manager::CryptoManager;
use pulse_core::mobile::PulseMobile;
use pulse_core::models::{ChatRole, Message, SealedMessage, User};
use pulse_core::session::SessionBinding;
use pulse_core::ui::{AppEffect, AppEvent, LoginScreen, PulseApp, Screen, SettingsScreen};

fn alice() -> User {
    User {
        id: 7,
        username: "alice".to_string(),
        email: "alice@example.org".to_string(),
        public_key: vec![1; 32],
    }
}

fn note(id: u128) -> Message {
    Message { id, sender_id: 7, content: "hi".to_string(), timestamp: 100, is_encrypted: false }
}

fn custom() -> Config {
    Config {
        api_url: "https://pulse.example.org".to_string(),
        theme: "Dark".to_string(),
        notifications_enabled: false,
        auto_encrypt: false,
    }
}

#[test]
fn default_config_points_at_the_local_server() {
    let config = Config::default();
    assert_eq!(config.api_url, "http://localhost:8080");
    assert_eq!(config.theme, "System");
    assert!(config.notifications_enabled);
    assert!(config.auto_encrypt);
    assert_eq!(config.duplicate(), config);
    assert_eq!(custom().duplicate(), custom());
}

#[test]
fn login_screen_starts_empty() {
    let screen = LoginScreen::new();
    assert_eq!(screen.email(), "");
    assert_eq!(screen.password(), "");
    assert_eq!(screen.error(), None);
}

#[test]
fn login_screen_keeps_the_error_of_a_failed_attempt() {
    let mut screen = LoginScreen::new();
    screen.set_email("alice@example.org".to_string());
    screen.set_password("secret".to_string());
    assert_eq!(screen.finish_attempt(Err("Server error: no".to_string())), None);
    assert_eq!(screen.error(), Some("Server error: no"));
    assert_eq!(screen.email(), "alice@example.org");
    assert_eq!(screen.password(), "secret");
    assert_eq!(screen.finish_attempt(Ok(alice())), Some(alice()));
    assert_eq!(screen.error(), None);
    assert_eq!(screen.email(), "alice@example.org");
}

#[test]
fn settings_screen_saves_the_edited_fields() {
    let mut screen = SettingsScreen::new(&Config::default());
    assert_eq!(screen.save(), Config::default());
    screen.set_api_url("https://pulse.example.org".to_string());
    screen.set_theme("Dark".to_string());
    screen.set_notifications_enabled(false);
    screen.set_auto_encrypt(false);
    assert_eq!(screen.save(), custom());
}

#[test]
fn settings_screen_cancel_restores_the_settings_in_force() {
    let mut screen = SettingsScreen::new(&custom());
    screen.set_api_url("x".to_string());
    screen.set_theme("Light".to_string());
    screen.set_notifications_enabled(true);
    screen.set_auto_encrypt(true);
    screen.cancel();
    assert_eq!(screen.save(), custom());
}

#[test]
fn app_starts_at_the_login_screen() {
    let app = PulseApp::new(custom());
    assert_eq!(app.screen(), Screen::Login);
    assert_eq!(app.user(), None);
    assert_eq!(app.message_count(), 0);
    assert_eq!(app.config(), &custom());
}

#[test]
fn app_moves_to_the_chat_on_login_and_back_on_logout() {
    let mut app = PulseApp::new(Config::default());
    assert_eq!(app.handle(AppEvent::Logout), AppEffect::Nothing);
    assert_eq!(app.screen(), Screen::Login);
    assert_eq!(app.handle(AppEvent::LoggedIn(alice())), AppEffect::Nothing);
    assert_eq!(app.screen(), Screen::Chat);
    assert_eq!(app.user(), Some(&alice()));
    assert_eq!(app.handle(AppEvent::MessageSent(note(1))), AppEffect::Nothing);
    assert_eq!(app.handle(AppEvent::MessageSent(note(2))), AppEffect::Nothing);
    assert_eq!(app.message_count(), 2);
    assert_eq!(app.message(0), Some(&note(1)));
    assert_eq!(app.message(1), Some(&note(2)));
    assert_eq!(app.message(2), None);
    assert_eq!(app.handle(AppEvent::Logout), AppEffect::Nothing);
    assert_eq!(app.screen(), Screen::Login);
    assert_eq!(app.user(), None);
    assert_eq!(app.message_count(), 2);
}

#[test]
fn app_ignores_events_of_screens_that_are_not_shown() {
    let mut app = PulseApp::new(Config::default());
    assert_eq!(app.handle(AppEvent::MessageSent(note(1))), AppEffect::Nothing);
    assert_eq!(app.message_count(), 0);
    assert_eq!(app.handle(AppEvent::SettingsSaved(custom())), AppEffect::Nothing);
    assert_eq!(app.config(), &Config::default());
    app.handle(AppEvent::LoggedIn(alice()));
    let mut bob = alice();
    bob.id = 8;
    assert_eq!(app.handle(AppEvent::LoggedIn(bob)), AppEffect::Nothing);
    assert_eq!(app.user(), Some(&alice()));
}

#[test]
fn app_saves_settings_from_the_settings_screen_and_closes_on_quit() {
    let mut app = PulseApp::new(Config::default());
    app.handle(AppEvent::LoggedIn(alice()));
    assert_eq!(app.handle(AppEvent::OpenSettings), AppEffect::Nothing);
    assert_eq!(app.screen(), Screen::Settings);
    assert_eq!(app.handle(AppEvent::SettingsSaved(custom())), AppEffect::SaveConfig);
    assert_eq!(app.config(), &custom());
    assert_eq!(app.screen(), Screen::Settings);
    assert_eq!(app.handle(AppEvent::Quit), AppEffect::Close);
    assert_eq!(app.screen(), Screen::Settings);
    assert_eq!(app.user(), Some(&alice()));
}

#[test]
fn mobile_seals_outgoing_messages_when_asked_to() {
    let client = PulseMobile::new(Config::default()).unwrap();
    let message = client.send_message(&alice(), 42, "hello bob", 1_700_000_000).unwrap();
    assert_eq!(message.id, 42);
    assert_eq!(message.sender_id, 7);
    assert_eq!(message.timestamp, 1_700_000_000);
    assert!(message.is_encrypted);
    assert_ne!(message.content, "hello bob");
    assert_eq!(client.decrypt_message(&message.content).unwrap(), "hello bob");
    assert_eq!(client.read_message(&message).unwrap(), "hello bob");
}

#[test]
fn mobile_sends_in_the_clear_when_encryption_is_off() {
    let mut client = PulseMobile::new(Config::default()).unwrap();
    client.update_config(custom());
    assert_eq!(client.config(), &custom());
    let message = client.send_message(&alice(), 43, "hello bob", 5).unwrap();
    assert!(!message.is_encrypted);
    assert_eq!(message.content, "hello bob");
    assert_eq!(client.read_message(&message).unwrap(), "hello bob");
}

#[test]
fn mobile_update_config_keeps_the_key() {
    let mut client = PulseMobile::new(Config::default()).unwrap();
    let message = client.send_message(&alice(), 1, "before", 5).unwrap();
    let mut changed = Config::default();
    changed.theme = "Light".to_string();
    client.update_config(changed);
    assert_eq!(client.config().theme, "Light");
    assert_eq!(client.read_message(&message).unwrap(), "before");
}

#[test]
fn mobile_clients_of_one_conversation_read_each_other() {
    let alice_client = PulseMobile::with_manager(
        Config::default(),
        CryptoManager::with_key(SharedSecret::from_array([3u8; 32])),
    );
    let bob_client = PulseMobile::with_manager(
        Config::default(),
        CryptoManager::with_key(SharedSecret::from_array([3u8; 32])),
    );
    let stranger = PulseMobile::new(Config::default()).unwrap();
    let message = alice_client.send_message(&alice(), 1, "hello bob", 5).unwrap();
    assert_eq!(bob_client.read_message(&message).unwrap(), "hello bob");
    assert_eq!(stranger.read_message(&message).unwrap_err().kind(), ErrorKind::Decryption);
    assert_eq!(
        stranger.decrypt_message("not an envelope").unwrap_err().kind(),
        ErrorKind::InvalidMessageFormat
    );
}

#[test]
fn stored_message_takes_its_sender_from_the_session() {
    let session = SessionBinding { principal_id: 7, device_id: 70 };
    let envelope = EncryptedMessage::from_parts(vec![0; 12], vec![1; 20], None);
    let message = SealedMessage::accept(&session, 1, 8, envelope.clone(), 100, Some(200));
    assert_eq!(message.id(), 1);
    assert_eq!(message.sender_id(), 7);
    assert_eq!(message.recipient_id(), 8);
    assert_eq!(message.envelope(), &envelope);
    assert_eq!(message.created_at(), 100);
    assert_eq!(message.expires_at(), Some(200));
    assert_eq!(message, SealedMessage::from_parts(1, 7, 8, envelope, 100, Some(200)));
}

#[test]
fn chat_roles_are_distinct() {
    assert_ne!(ChatRole::Admin, ChatRole::Member);
    assert_ne!(ChatRole::Member, ChatRole::ReadOnly);
    assert_ne!(ChatRole::Admin, ChatRole::ReadOnly);
}
