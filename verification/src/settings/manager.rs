//! Keeps the settings in memory and says when the file that stores them
//! is to be written.

use vstd::prelude::*;
use crate::settings::types::{default_settings, Settings, SettingsView};

verus! {

/// The directory of the application under the user's configuration
/// directory.
pub const APP_DIR_NAME: &'static str = "rusterm";

/// The file that stores the settings.
pub const SETTINGS_FILE_NAME: &'static str = "settings.json";

/// What can go wrong with the settings. `ReadError` and `ParseError`
/// carry the detail that follows the fixed text of their messages.
#[derive(Debug, Clone, PartialEq, Eq)]
pub enum SettingsError {
    ReadError(String),
    ParseError(String),
    DirectoryNotFound,
}

impl SettingsError {
    /// The message shown to a user.
    pub open spec fn message_text(self) -> Seq<char> {
        match self {
            SettingsError::ReadError(d) => "Failed to read settings file: "@ + d@,
            SettingsError::ParseError(d) => "Failed to parse settings: "@ + d@,
            SettingsError::DirectoryNotFound => "Settings directory not found"@,
        }
    }

    /// The message shown to a user.
    pub fn message(&self) -> (out: String)
        ensures
            out@ == self.message_text(),
    {
        match self {
            SettingsError::ReadError(d) => String::from_str("Failed to read settings file: ").concat(
                d.as_str(),
            ),
            SettingsError::ParseError(d) => String::from_str("Failed to parse settings: ").concat(
                d.as_str(),
            ),
            SettingsError::DirectoryNotFound => String::from_str("Settings directory not found"),
        }
    }
}

/// What was found where the settings are stored.
#[derive(Debug, PartialEq, Eq)]
pub enum StoredSettings {
    /// No configuration directory is known.
    NoDirectory,
    /// The file does not exist yet.
    Absent,
    /// The file could not be read, for this reason.
    Unreadable(String),
    /// The file does not hold settings, for this reason.
    Malformed(String),
    /// The file holds these settings.
    Loaded(Settings),
}

/// Keeps the settings and the path of the file that stores them.
#[derive(Debug)]
pub struct SettingsManager {
    settings: Settings,
    settings_path: String,
}

impl View for SettingsManager {
    type V = SettingsView;

    closed spec fn view(&self) -> SettingsView {
        self.settings@
    }
}

impl SettingsManager {
    /// The path of the file that stores the settings.
    pub closed spec fn path(&self) -> Seq<char> {
        self.settings_path@
    }

    /// The settings to start with, and whether the file is to be written:
    /// what the file holds, or the defaults, which are then stored, where
    /// there is no file yet. A file that cannot be read or does not hold
    /// settings, and a configuration directory that is not known, are
    /// errors.
    pub fn load_or_create(stored: StoredSettings) -> (loaded: Result<(Settings, bool), SettingsError>)
        ensures
            match stored {
                StoredSettings::NoDirectory => loaded == Err::<(Settings, bool), SettingsError>(
                    SettingsError::DirectoryNotFound,
                ),
                StoredSettings::Absent => loaded is Ok && loaded->Ok_0.0@ == default_settings()
                    && loaded->Ok_0.1,
                StoredSettings::Unreadable(cause) => loaded == Err::<
                    (Settings, bool),
                    SettingsError,
                >(SettingsError::ReadError(cause)),
                StoredSettings::Malformed(cause) => loaded == Err::<
                    (Settings, bool),
                    SettingsError,
                >(SettingsError::ParseError(cause)),
                StoredSettings::Loaded(settings) => loaded == Ok::<
                    (Settings, bool),
                    SettingsError,
                >((settings, false)),
            },
    {
        match stored {
            StoredSettings::NoDirectory => Err(SettingsError::DirectoryNotFound),
            StoredSettings::Absent => Ok((Settings::default(), true)),
            StoredSettings::Unreadable(cause) => Err(SettingsError::ReadError(cause)),
            StoredSettings::Malformed(cause) => Err(SettingsError::ParseError(cause)),
            StoredSettings::Loaded(settings) => Ok((settings, false)),
        }
    }

    /// The manager for the settings found at `settings_path`, and whether
    /// the file is to be written with them.
    pub fn new(settings_path: String, stored: StoredSettings) -> (created: Result<
        (SettingsManager, bool),
        SettingsError,
    >)
        ensures
            match stored {
                StoredSettings::NoDirectory => created is Err && created->Err_0
                    == SettingsError::DirectoryNotFound,
                StoredSettings::Absent => created is Ok && created->Ok_0.0@ == default_settings()
                    && created->Ok_0.0.path() == settings_path@ && created->Ok_0.1,
                StoredSettings::Unreadable(cause) => created is Err && created->Err_0
                    == SettingsError::ReadError(cause),
                StoredSettings::Malformed(cause) => created is Err && created->Err_0
                    == SettingsError::ParseError(cause),
                StoredSettings::Loaded(settings) => created is Ok && created->Ok_0.0@ == settings@
                    && created->Ok_0.0.path() == settings_path@ && !created->Ok_0.1,
            },
    {
        match Self::load_or_create(stored) {
            Ok((settings, write)) => Ok((SettingsManager { settings, settings_path }, write)),
            Err(error) => Err(error),
        }
    }

    /// The path of the file that stores the settings.
    pub fn get_settings_path(&self) -> (path: &str)
        ensures
            path@ == self.path(),
    {
        self.settings_path.as_str()
    }

    /// A copy of the settings.
    pub fn get_settings(&self) -> (settings: Settings)
        ensures
            settings@ == self@,
    {
        self.settings.clone()
    }

    /// Replaces the settings, and hands out what is to be written to the
    /// file: the new settings.
    pub fn update_settings(&mut self, new_settings: Settings) -> (to_store: Settings)
        ensures
            final(self)@ == new_settings@,
            final(self).path() == old(self).path(),
            to_store@ == new_settings@,
    {
        let to_store = new_settings.clone();
        self.settings = new_settings;
        to_store
    }

    /// Puts the defaults back, and hands out what is to be written to the
    /// file.
    pub fn reset_to_default(&mut self) -> (to_store: Settings)
        ensures
            final(self)@ == default_settings(),
            final(self).path() == old(self).path(),
            to_store@ == default_settings(),
    {
        self.update_settings(Settings::default())
    }
}

} // verus!
