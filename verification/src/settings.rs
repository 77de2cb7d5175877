//! The configuration that the program starts with, derived from the
//! command line.

use crate::command_line::{
    command_line_of, option_table, parse_command_line, CommandLine, CommandLineView,
};
use crate::error::{ConfigurationError, ConfigurationErrorView, Required};
use crate::getopts_spec::{fail_message, parse_result, text_of, texts, Occurrences};
use vstd::prelude::*;

verus! {

/// Where files are cached, and whether audio data is cached too.
#[derive(Debug, PartialEq, Eq)]
pub struct CacheSettings {
    pub location: String,
    pub use_audio_cache: bool,
}

/// The account at the scrobbling service.
#[derive(Debug, PartialEq, Eq)]
pub struct ScrobblerConfig {
    pub api_key: String,
    pub api_secret: String,
    pub username: String,
    pub password: String,
}

/// What the program was configured with.
#[derive(Debug, PartialEq, Eq)]
pub struct Settings {
    /// The cache, if a cache directory was given.
    pub cache: Option<CacheSettings>,
    /// The name under which the device shows up.
    pub name: String,
    /// The device type as it was given, still to be interpreted.
    pub device_type: Option<String>,
    /// Whether verbose output was asked for.
    pub verbose: bool,
    /// The user name to sign in with, if one was given.
    pub username: Option<String>,
    /// The password to sign in with, if one was given.
    pub password: Option<String>,
    /// Whether pairing requests on the local network are listened for.
    pub enable_discovery: bool,
    /// The mixer as it was given, still to be looked up.
    pub mixer: Option<String>,
    /// The account at the scrobbling service.
    pub scrobbler: ScrobblerConfig,
}

/// The texts of a [`CacheSettings`].
pub struct CacheSettingsView {
    pub location: Seq<char>,
    pub use_audio_cache: bool,
}

/// The texts of a [`ScrobblerConfig`].
pub struct ScrobblerConfigView {
    pub api_key: Seq<char>,
    pub api_secret: Seq<char>,
    pub username: Seq<char>,
    pub password: Seq<char>,
}

/// The texts of a [`Settings`].
pub struct SettingsView {
    pub cache: Option<CacheSettingsView>,
    pub name: Seq<char>,
    pub device_type: Option<Seq<char>>,
    pub verbose: bool,
    pub username: Option<Seq<char>>,
    pub password: Option<Seq<char>>,
    pub enable_discovery: bool,
    pub mixer: Option<Seq<char>>,
    pub scrobbler: ScrobblerConfigView,
}

impl View for CacheSettings {
    type V = CacheSettingsView;

    open spec fn view(&self) -> CacheSettingsView {
        CacheSettingsView { location: self.location@, use_audio_cache: self.use_audio_cache }
    }
}

impl View for ScrobblerConfig {
    type V = ScrobblerConfigView;

    open spec fn view(&self) -> ScrobblerConfigView {
        ScrobblerConfigView {
            api_key: self.api_key@,
            api_secret: self.api_secret@,
            username: self.username@,
            password: self.password@,
        }
    }
}

impl View for Settings {
    type V = SettingsView;

    open spec fn view(&self) -> SettingsView {
        SettingsView {
            cache: match self.cache {
                Some(cache) => Some(cache@),
                None => None,
            },
            name: self.name@,
            device_type: text_of(self.device_type),
            verbose: self.verbose,
            username: text_of(self.username),
            password: text_of(self.password),
            enable_discovery: self.enable_discovery,
            mixer: text_of(self.mixer),
            scrobbler: self.scrobbler@,
        }
    }
}

/// The first required value that the command line lacks, in the order API
/// key, API secret, user name, password.
pub open spec fn first_missing(given: CommandLineView) -> Option<Required> {
    if given.lastfm_api_key is None {
        Some(Required::LastfmApiKey)
    } else if given.lastfm_api_secret is None {
        Some(Required::LastfmApiSecret)
    } else if given.lastfm_username is None {
        Some(Required::LastfmUsername)
    } else if given.lastfm_password is None {
        Some(Required::LastfmPassword)
    } else {
        None
    }
}

/// The settings that a command line with all required values stands for.
/// The device is called `Scrobbler` unless a name is given. Audio data is
/// cached and discovery is on unless the command line disables them, and
/// there is a cache only where a directory is given.
pub open spec fn settings_of(given: CommandLineView) -> SettingsView {
    SettingsView {
        cache: match given.cache {
            Some(location) => Some(
                CacheSettingsView { location, use_audio_cache: !given.disable_audio_cache },
            ),
            None => None,
        },
        name: match given.name {
            Some(name) => name,
            None => "Scrobbler"@,
        },
        device_type: given.device_type,
        verbose: given.verbose,
        username: given.username,
        password: given.password,
        enable_discovery: !given.disable_discovery,
        mixer: given.mixer,
        scrobbler: ScrobblerConfigView {
            api_key: given.lastfm_api_key->0,
            api_secret: given.lastfm_api_secret->0,
            username: given.lastfm_username->0,
            password: given.lastfm_password->0,
        },
    }
}

/// What `setup` gives for the outcome of parsing.
pub open spec fn setup_of(parsed: Result<Map<Seq<char>, Occurrences>, getopts::Fail>) -> Result<SettingsView, ConfigurationErrorView> {
    match parsed {
        Ok(found) => match first_missing(command_line_of(found)) {
            None => Ok(settings_of(command_line_of(found))),
            Some(required) => Err(ConfigurationErrorView::Missing(required)),
        },
        Err(failure) => Err(ConfigurationErrorView::Arguments(fail_message(failure))),
    }
}

/// The texts of the outcome of `setup`.
pub open spec fn outcome_view(outcome: Result<Settings, ConfigurationError>) -> Result<
    SettingsView,
    ConfigurationErrorView,
> {
    match outcome {
        Ok(settings) => Ok(settings@),
        Err(error) => Err(error@),
    }
}

impl Settings {
    /// Derives the settings from a command line. Fails where a required
    /// value is missing, and names the first one that is.
    pub fn from_command_line(command_line: CommandLine) -> (result: Result<
        Settings,
        ConfigurationError,
    >)
        ensures
            match result {
                Ok(settings) => first_missing(command_line@) is None && settings@ == settings_of(
                    command_line@,
                ),
                Err(error) => first_missing(command_line@) matches Some(required) && error@
                    == ConfigurationErrorView::Missing(required),
            },
    {
        let CommandLine {
            cache,
            disable_audio_cache,
            name,
            device_type,
            verbose,
            username,
            password,
            disable_discovery,
            mixer,
            lastfm_username,
            lastfm_password,
            lastfm_api_key,
            lastfm_api_secret,
        } = command_line;
        let api_key = match lastfm_api_key {
            Some(value) => value,
            None => {
                return Err(ConfigurationError::Missing(Required::LastfmApiKey));
            },
        };
        let api_secret = match lastfm_api_secret {
            Some(value) => value,
            None => {
                return Err(ConfigurationError::Missing(Required::LastfmApiSecret));
            },
        };
        let scrobbler_username = match lastfm_username {
            Some(value) => value,
            None => {
                return Err(ConfigurationError::Missing(Required::LastfmUsername));
            },
        };
        let scrobbler_password = match lastfm_password {
            Some(value) => value,
            None => {
                return Err(ConfigurationError::Missing(Required::LastfmPassword));
            },
        };
        let cache = match cache {
            Some(location) => Some(
                CacheSettings { location, use_audio_cache: !disable_audio_cache },
            ),
            None => None,
        };
        let name = match name {
            Some(name) => name,
            None => "Scrobbler".to_owned(),
        };
        Ok(
            Settings {
                cache,
                name,
                device_type,
                verbose,
                username,
                password,
                enable_discovery: !disable_discovery,
                mixer,
                scrobbler: ScrobblerConfig {
                    api_key,
                    api_secret,
                    username: scrobbler_username,
                    password: scrobbler_password,
                },
            },
        )
    }
}

/// Builds the settings from the arguments of the program, the program's own
/// name left out: parses them against the option table and derives the
/// settings from what was given.
pub fn setup(arguments: &[String]) -> (result: Result<Settings, ConfigurationError>)
    ensures
        outcome_view(result) == setup_of(parse_result(option_table(), texts(arguments@))),
{
    match parse_command_line(arguments) {
        Ok(command_line) => Settings::from_command_line(command_line),
        Err(error) => Err(error),
    }
}

} // verus!
