//! Client settings.

use vstd::prelude::*;
use vstd::string::*;

verus! {

/// What a [`Config`] holds.
pub struct ConfigView {
    pub api_url: Seq<char>,
    pub theme: Seq<char>,
    pub notifications_enabled: bool,
    pub auto_encrypt: bool,
}

/// The settings of a client that was never configured: the local server,
/// the system's theme, notifications on, and every message sealed.
pub open spec fn default_config() -> ConfigView {
    ConfigView {
        api_url: "http://localhost:8080"@,
        theme: "System"@,
        notifications_enabled: true,
        auto_encrypt: true,
    }
}

/// A client's settings.
#[derive(Debug, Clone, PartialEq, Eq)]
pub struct Config {
    pub api_url: String,
    pub theme: String,
    pub notifications_enabled: bool,
    pub auto_encrypt: bool,
}

impl View for Config {
    type V = ConfigView;

    open spec fn view(&self) -> ConfigView {
        ConfigView {
            api_url: self.api_url@,
            theme: self.theme@,
            notifications_enabled: self.notifications_enabled,
            auto_encrypt: self.auto_encrypt,
        }
    }
}

impl Default for Config {
    fn default() -> (config: Config)
        ensures
            config@ == default_config(),
    {
        Config {
            api_url: String::from_str("http://localhost:8080"),
            theme: String::from_str("System"),
            notifications_enabled: true,
            auto_encrypt: true,
        }
    }
}

impl Config {
    /// A copy of the settings.
    pub fn duplicate(&self) -> (copy: Config)
        ensures
            copy@ == self@,
    {
        Config {
            api_url: self.api_url.clone(),
            theme: self.theme.clone(),
            notifications_enabled: self.notifications_enabled,
            auto_encrypt: self.auto_encrypt,
        }
    }
}

} // verus!
