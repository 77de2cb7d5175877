//! Errors of the configuration. Each is fatal at startup: the program prints
//! the message and the usage text and exits with status 1.

use vstd::prelude::*;

verus! {

/// A value without which the program does not start.
#[derive(Clone, Copy, Debug, PartialEq, Eq, Structural)]
pub enum Required {
    LastfmApiKey,
    LastfmApiSecret,
    LastfmUsername,
    LastfmPassword,
}

impl Required {
    /// The long name of the option that supplies the value.
    pub open spec fn option_name(self) -> Seq<char> {
        match self {
            Required::LastfmApiKey => "lastfm-api-key"@,
            Required::LastfmApiSecret => "lastfm-api-secret"@,
            Required::LastfmUsername => "lastfm-username"@,
            Required::LastfmPassword => "lastfm-password"@,
        }
    }

    /// What is reported when the value is missing.
    pub open spec fn complaint(self) -> Seq<char> {
        match self {
            Required::LastfmApiKey => "Invalid Last.fm API key"@,
            Required::LastfmApiSecret => "Invalid Last.fm API secret"@,
            Required::LastfmUsername => "Invalid Last.fm username"@,
            Required::LastfmPassword => "Invalid Last.fm password"@,
        }
    }
}

/// Why no configuration could be built.
#[derive(Debug, PartialEq, Eq)]
pub enum ConfigurationError {
    /// The arguments do not conform to the options; the text says how.
    Arguments(String),
    /// A required value was not given.
    Missing(Required),
}

/// The texts of a [`ConfigurationError`].
pub enum ConfigurationErrorView {
    Arguments(Seq<char>),
    Missing(Required),
}

impl View for ConfigurationError {
    type V = ConfigurationErrorView;

    open spec fn view(&self) -> ConfigurationErrorView {
        match self {
            ConfigurationError::Arguments(reason) => ConfigurationErrorView::Arguments(reason@),
            ConfigurationError::Missing(required) => ConfigurationErrorView::Missing(*required),
        }
    }
}

impl ConfigurationErrorView {
    /// The message of the error.
    pub open spec fn message(self) -> Seq<char> {
        match self {
            ConfigurationErrorView::Arguments(reason) => reason,
            ConfigurationErrorView::Missing(required) => required.complaint(),
        }
    }
}

impl ConfigurationError {
    /// The message to print after `error: `.
    pub fn message(&self) -> (message: String)
        ensures
            message@ == self@.message(),
    {
        match self {
            ConfigurationError::Arguments(reason) => reason.clone(),
            ConfigurationError::Missing(Required::LastfmApiKey) => "Invalid Last.fm API key".to_owned(),
            ConfigurationError::Missing(Required::LastfmApiSecret) => "Invalid Last.fm API secret".to_owned(),
            ConfigurationError::Missing(Required::LastfmUsername) => "Invalid Last.fm username".to_owned(),
            ConfigurationError::Missing(Required::LastfmPassword) => "Invalid Last.fm password".to_owned(),
        }
    }
}

} // verus!
