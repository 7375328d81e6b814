//! The state behind the desktop client's screens, without any drawing.
//!
//! The code that draws reports what the user did; the functions here
//! decide what that changes.

use crate::config::{Config, ConfigView};
use crate::models::{Message, MessageView, User, UserView};
use vstd::prelude::*;
use vstd::string::*;

verus! {

/// The screen that the client shows.
#[derive(Debug, Clone, Copy, PartialEq, Eq, Structural)]
pub enum Screen {
    Login,
    Chat,
    Settings,
}

/// What a [`LoginScreen`] holds.
pub struct LoginScreenView {
    pub email: Seq<char>,
    pub password: Seq<char>,
    pub error: Option<Seq<char>>,
}

/// The login form: what was typed, and the error of the last attempt.
pub struct LoginScreen {
    email: String,
    password: String,
    error: Option<String>,
}

impl View for LoginScreen {
    type V = LoginScreenView;

    closed spec fn view(&self) -> LoginScreenView {
        LoginScreenView {
            email: self.email@,
            password: self.password@,
            error: match self.error {
                Some(text) => Some(text@),
                None => None,
            },
        }
    }
}

impl LoginScreen {
    /// An empty form that shows no error.
    pub fn new() -> (screen: LoginScreen)
        ensures
            screen@.email == Seq::<char>::empty(),
            screen@.password == Seq::<char>::empty(),
            screen@.error is None,
    {
        LoginScreen { email: String::new(), password: String::new(), error: None }
    }

    /// Takes what was typed into the email field.
    pub fn set_email(&mut self, email: String)
        ensures
            final(self)@ == (LoginScreenView { email: email@, ..old(self)@ }),
    {
        self.email = email;
    }

    /// Takes what was typed into the password field.
    pub fn set_password(&mut self, password: String)
        ensures
            final(self)@ == (LoginScreenView { password: password@, ..old(self)@ }),
    {
        self.password = password;
    }

    /// The email as typed.
    pub fn email(&self) -> (email: &str)
        ensures
            email@ == self@.email,
    {
        self.email.as_str()
    }

    /// The password as typed.
    pub fn password(&self) -> (password: &str)
        ensures
            password@ == self@.password,
    {
        self.password.as_str()
    }

    /// The error to show, where the last attempt failed.
    pub fn error(&self) -> (error: Option<&str>)
        ensures
            match self@.error {
                Some(text) => error matches Some(e) && e@ == text,
                None => error is None,
            },
    {
        match &self.error {
            Some(text) => Some(text.as_str()),
            None => None,
        }
    }

    /// Takes the server's answer to a login attempt. A user that logged in
    /// is handed on and the error is cleared; a failure is kept as the
    /// error to show. What was typed stays.
    pub fn finish_attempt(&mut self, outcome: Result<User, String>) -> (user: Option<User>)
        ensures
            final(self)@.email == old(self)@.email,
            final(self)@.password == old(self)@.password,
            match outcome {
                Ok(logged_in) => user == Some(logged_in) && final(self)@.error is None,
                Err(text) => user is None && final(self)@.error == Some(text@),
            },
    {
        match outcome {
            Ok(logged_in) => {
                self.error = None;
                Some(logged_in)
            },
            Err(text) => {
                self.error = Some(text);
                None
            },
        }
    }
}

/// What a [`SettingsScreen`] holds: the settings in force, and the fields
/// as edited.
pub struct SettingsScreenView {
    pub config: ConfigView,
    pub edited: ConfigView,
}

/// The settings form.
pub struct SettingsScreen {
    config: Config,
    api_url: String,
    theme: String,
    notifications_enabled: bool,
    auto_encrypt: bool,
}

impl View for SettingsScreen {
    type V = SettingsScreenView;

    closed spec fn view(&self) -> SettingsScreenView {
        SettingsScreenView {
            config: self.config@,
            edited: ConfigView {
                api_url: self.api_url@,
                theme: self.theme@,
                notifications_enabled: self.notifications_enabled,
                auto_encrypt: self.auto_encrypt,
            },
        }
    }
}

impl SettingsScreen {
    /// A form for the given settings, with nothing edited yet.
    pub fn new(config: &Config) -> (screen: SettingsScreen)
        ensures
            screen@.config == config@,
            screen@.edited == config@,
    {
        SettingsScreen {
            config: config.duplicate(),
            api_url: config.api_url.clone(),
            theme: config.theme.clone(),
            notifications_enabled: config.notifications_enabled,
            auto_encrypt: config.auto_encrypt,
        }
    }

    /// Takes an edit of the server's address.
    pub fn set_api_url(&mut self, api_url: String)
        ensures
            final(self)@.config == old(self)@.config,
            final(self)@.edited == (ConfigView { api_url: api_url@, ..old(self)@.edited }),
    {
        self.api_url = api_url;
    }

    /// Takes a choice of theme.
    pub fn set_theme(&mut self, theme: String)
        ensures
            final(self)@.config == old(self)@.config,
            final(self)@.edited == (ConfigView { theme: theme@, ..old(self)@.edited }),
    {
        self.theme = theme;
    }

    /// Takes the state of the notifications checkbox.
    pub fn set_notifications_enabled(&mut self, enabled: bool)
        ensures
            final(self)@.config == old(self)@.config,
            final(self)@.edited == (ConfigView {
                notifications_enabled: enabled,
                ..old(self)@.edited
            }),
    {
        self.notifications_enabled = enabled;
    }

    /// Takes the state of the encryption checkbox.
    pub fn set_auto_encrypt(&mut self, enabled: bool)
        ensures
            final(self)@.config == old(self)@.config,
            final(self)@.edited == (ConfigView { auto_encrypt: enabled, ..old(self)@.edited }),
    {
        self.auto_encrypt = enabled;
    }

    /// The settings that "Save" puts in force: the fields as edited.
    pub fn save(&self) -> (config: Config)
        ensures
            config@ == self@.edited,
    {
        Config {
            api_url: self.api_url.clone(),
            theme: self.theme.clone(),
            notifications_enabled: self.notifications_enabled,
            auto_encrypt: self.auto_encrypt,
        }
    }

    /// "Cancel": every field goes back to the settings in force.
    pub fn cancel(&mut self)
        ensures
            final(self)@.config == old(self)@.config,
            final(self)@.edited == old(self)@.config,
    {
        self.api_url = self.config.api_url.clone();
        self.theme = self.config.theme.clone();
        self.notifications_enabled = self.config.notifications_enabled;
        self.auto_encrypt = self.config.auto_encrypt;
    }
}

/// What the user did, as the drawing code reports it.
pub enum AppEvent {
    /// The login form handed on a user.
    LoggedIn(User),
    /// The chat screen sent a message.
    MessageSent(Message),
    /// The settings form was saved.
    SettingsSaved(Config),
    /// "Settings" was chosen from the menu.
    OpenSettings,
    /// "Logout" was chosen from the menu.
    Logout,
    /// "Quit" was chosen from the menu.
    Quit,
}

/// What the caller has to do after an event.
#[derive(Debug, Clone, Copy, PartialEq, Eq, Structural)]
pub enum AppEffect {
    Nothing,
    /// Write the settings now in force to disk.
    SaveConfig,
    /// Close the window.
    Close,
}

/// What a [`PulseApp`] holds.
pub struct PulseAppView {
    pub screen: Screen,
    pub user: Option<UserView>,
    pub messages: Seq<MessageView>,
    pub config: ConfigView,
}

impl PulseAppView {
    /// The chat screen is shown only to a user that is logged in.
    pub open spec fn consistent(self) -> bool {
        self.screen == Screen::Chat ==> self.user is Some
    }
}

/// The view of an event's payload, for use in contracts.
pub enum AppEventView {
    LoggedIn(UserView),
    MessageSent(MessageView),
    SettingsSaved(ConfigView),
    OpenSettings,
    Logout,
    Quit,
}

impl View for AppEvent {
    type V = AppEventView;

    open spec fn view(&self) -> AppEventView {
        match self {
            AppEvent::LoggedIn(user) => AppEventView::LoggedIn(user@),
            AppEvent::MessageSent(message) => AppEventView::MessageSent(message@),
            AppEvent::SettingsSaved(config) => AppEventView::SettingsSaved(config@),
            AppEvent::OpenSettings => AppEventView::OpenSettings,
            AppEvent::Logout => AppEventView::Logout,
            AppEvent::Quit => AppEventView::Quit,
        }
    }
}

/// The state after an event. An event that does not belong to the screen
/// shown changes nothing.
pub open spec fn next_state(state: PulseAppView, event: AppEventView) -> PulseAppView {
    match event {
        AppEventView::LoggedIn(user) => if state.screen == Screen::Login {
            PulseAppView { screen: Screen::Chat, user: Some(user), ..state }
        } else {
            state
        },
        AppEventView::MessageSent(message) => if state.screen == Screen::Chat {
            PulseAppView { messages: state.messages.push(message), ..state }
        } else {
            state
        },
        AppEventView::SettingsSaved(config) => if state.screen == Screen::Settings {
            PulseAppView { config, ..state }
        } else {
            state
        },
        AppEventView::OpenSettings => PulseAppView { screen: Screen::Settings, ..state },
        AppEventView::Logout => if state.user is Some {
            PulseAppView { screen: Screen::Login, user: None, ..state }
        } else {
            state
        },
        AppEventView::Quit => state,
    }
}

/// What the caller has to do after an event.
pub open spec fn effect_of(state: PulseAppView, event: AppEventView) -> AppEffect {
    match event {
        AppEventView::SettingsSaved(_) => if state.screen == Screen::Settings {
            AppEffect::SaveConfig
        } else {
            AppEffect::Nothing
        },
        AppEventView::Quit => AppEffect::Close,
        _ => AppEffect::Nothing,
    }
}

/// The desktop client's state: the screen shown, the user logged in, the
/// messages of the open chat and the settings in force.
pub struct PulseApp {
    screen: Screen,
    user: Option<User>,
    messages: Vec<Message>,
    config: Config,
}

impl View for PulseApp {
    type V = PulseAppView;

    closed spec fn view(&self) -> PulseAppView {
        PulseAppView {
            screen: self.screen,
            user: match self.user {
                Some(user) => Some(user@),
                None => None,
            },
            messages: Seq::new(self.messages@.len(), |i: int| self.messages@[i]@),
            config: self.config@,
        }
    }
}

impl PulseApp {
    /// A client that starts at the login screen with nobody logged in.
    pub fn new(config: Config) -> (app: PulseApp)
        ensures
            app@ == (PulseAppView {
                screen: Screen::Login,
                user: None,
                messages: Seq::<MessageView>::empty(),
                config: config@,
            }),
            app@.consistent(),
    {
        let app = PulseApp { screen: Screen::Login, user: None, messages: Vec::new(), config };
        assert(app@.messages =~= Seq::<MessageView>::empty());
        app
    }

    /// The screen to draw.
    pub fn screen(&self) -> (screen: Screen)
        ensures
            screen == self@.screen,
    {
        self.screen
    }

    /// The user that is logged in, if any.
    pub fn user(&self) -> (user: Option<&User>)
        ensures
            match self@.user {
                Some(view) => user matches Some(u) && u@ == view,
                None => user is None,
            },
    {
        match &self.user {
            Some(user) => Some(user),
            None => None,
        }
    }

    /// The number of messages in the open chat.
    pub fn message_count(&self) -> (count: usize)
        ensures
            count == self@.messages.len(),
    {
        self.messages.len()
    }

    /// The message at a position of the open chat, or `None` past the end.
    pub fn message(&self, index: usize) -> (message: Option<&Message>)
        ensures
            index < self@.messages.len() ==> (message matches Some(m) && m@
                == self@.messages[index as int]),
            index >= self@.messages.len() ==> message is None,
    {
        if index < self.messages.len() {
            Some(&self.messages[index])
        } else {
            None
        }
    }

    /// The settings in force.
    pub fn config(&self) -> (config: &Config)
        ensures
            config@ == self@.config,
    {
        &self.config
    }

    /// Takes an event and moves to the next state.
    pub fn handle(&mut self, event: AppEvent) -> (effect: AppEffect)
        ensures
            final(self)@ == next_state(old(self)@, event@),
            effect == effect_of(old(self)@, event@),
    {
        let ghost before = self@;
        match event {
            AppEvent::LoggedIn(user) => {
                if self.screen == Screen::Login {
                    self.user = Some(user);
                    self.screen = Screen::Chat;
                }
                assert(self@.messages =~= before.messages);
                AppEffect::Nothing
            },
            AppEvent::MessageSent(message) => {
                if self.screen == Screen::Chat {
                    self.messages.push(message);
                    assert(self@.messages =~= before.messages.push(message@));
                } else {
                    assert(self@.messages =~= before.messages);
                }
                AppEffect::Nothing
            },
            AppEvent::SettingsSaved(config) => {
                assert(self@.messages =~= before.messages);
                if self.screen == Screen::Settings {
                    self.config = config;
                    AppEffect::SaveConfig
                } else {
                    AppEffect::Nothing
                }
            },
            AppEvent::OpenSettings => {
                self.screen = Screen::Settings;
                assert(self@.messages =~= before.messages);
                AppEffect::Nothing
            },
            AppEvent::Logout => {
                if self.user.is_some() {
                    self.user = None;
                    self.screen = Screen::Login;
                }
                assert(self@.messages =~= before.messages);
                AppEffect::Nothing
            },
            AppEvent::Quit => {
                assert(self@.messages =~= before.messages);
                AppEffect::Close
            },
        }
    }
}

/// No event leads to a chat screen without a user: a consistent state
/// stays consistent.
pub proof fn law_chat_needs_a_user(state: PulseAppView, event: AppEventView)
    requires
        state.consistent(),
    ensures
        next_state(state, event).consistent(),
{
}

/// Logging out forgets the user and returns to the login screen, whatever
/// screen was shown.
pub proof fn law_logout_forgets_the_user(state: PulseAppView)
    requires
        state.user is Some,
    ensures
        next_state(state, AppEventView::Logout).user is None,
        next_state(state, AppEventView::Logout).screen == Screen::Login,
{
}

} // verus!
