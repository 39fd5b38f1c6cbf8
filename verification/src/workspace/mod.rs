//! The per-user workspace: where its files lie, the two documents kept in it,
//! their compiled-in defaults, and what to do with what the first read of a
//! document's file gave.
//!
//! Reading and writing files is the caller's part. This module says which file
//! to read, which document results, and whether the default has to be written.

use self::config::AppearanceConfig;
use self::config::IOType;
use self::config::Language;
use self::config::LanguageConfig;
use self::config::NotificationConfig;
use self::config::PrivacyConfig;
use self::config::Theme;
use self::config::VVConfig;
use crate::text::decimal;
use crate::text::decimal_text;
use std::path::PathBuf;
use vstd::prelude::*;
use vstd::string::*;

pub mod config;

verus! {

/// Name of the application's directory inside the platform's data directory.
pub const APP_DIR: &'static str = "occult";

/// Name of the directory for application data inside the working directory.
pub const DATA_DIR: &'static str = "data";

/// Name of the settings file inside the working directory.
pub const CONFIG_FILE: &'static str = ".occult.config.toml";

/// Name of the cache file inside the working directory.
pub const CACHE_FILE: &'static str = ".occult.cache.toml";

/// `std::path::PathBuf`, carried through unopened: nothing here reads a path.
#[verifier::external_type_specification]
#[verifier::external_body]
pub struct ExPathBuf(PathBuf);

/// `PathBuf::clone`: the copy is the same path.
pub assume_specification[ <PathBuf as Clone>::clone ](path: &PathBuf) -> (copy: PathBuf)
    ensures
        copy == *path,
;

/// A place in the file system: a base directory that the platform named, and the
/// names to descend through from there, outermost first.
#[derive(Debug, PartialEq, Eq)]
pub struct Location {
    /// The directory that the segments start from.
    pub base: PathBuf,
    /// The names below the base, one for each level.
    pub segments: Vec<String>,
}

/// A [`Location`] with its segments as sequences of characters.
pub struct LocationView {
    pub base: PathBuf,
    pub segments: Seq<Seq<char>>,
}

impl LocationView {
    /// This place, one level further down.
    pub open spec fn join(self, segment: Seq<char>) -> LocationView {
        LocationView { base: self.base, segments: self.segments.push(segment) }
    }
}

impl View for Location {
    type V = LocationView;

    open spec fn view(&self) -> LocationView {
        LocationView { base: self.base, segments: self.segments@.map_values(|s: String| s@) }
    }
}

impl Clone for Location {
    fn clone(&self) -> (copy: Location)
        ensures
            copy@ == self@,
    {
        let mut segments: Vec<String> = Vec::new();
        let mut level: usize = 0;
        while level < self.segments.len()
            invariant
                level <= self.segments@.len(),
                segments@.len() == level,
                forall|i: int| 0 <= i < level ==> segments@[i]@ == self.segments@[i]@,
            decreases self.segments@.len() - level,
        {
            segments.push(self.segments[level].clone());
            level = level + 1;
        }
        let copy = Location { base: self.base.clone(), segments };
        assert(copy@.segments =~= self@.segments);
        copy
    }
}

impl Location {
    /// The base directory itself.
    pub fn at(base: PathBuf) -> (location: Location)
        ensures
            location@ == (LocationView { base, segments: Seq::empty() }),
    {
        let location = Location { base, segments: Vec::new() };
        assert(location@.segments =~= Seq::empty());
        location
    }

    /// This place, one level further down.
    pub fn join(&self, segment: &str) -> (joined: Location)
        ensures
            joined@ == self@.join(segment@),
    {
        let mut joined = self.clone();
        joined.segments.push(String::from_str(segment));
        assert(joined@.segments =~= self@.segments.push(segment@));
        joined
    }
}

/// Why a place in the workspace could not be named.
#[derive(Debug, Clone, Copy, PartialEq, Eq)]
pub enum WorkspaceError {
    /// The platform names no per-user data directory, so there is no working
    /// directory.
    WorkingDirUnavailable,
    /// The data directory cannot be named for want of the working directory.
    DataDirUnavailable,
}

impl WorkspaceError {
    /// The description that a caller shows for this error.
    pub open spec fn text(self) -> Seq<char> {
        match self {
            WorkspaceError::WorkingDirUnavailable => "Could not fetch working dir"@,
            WorkspaceError::DataDirUnavailable => "Failed to obtain working dir"@,
        }
    }

    /// The error as a plain descriptive string.
    pub fn message(&self) -> (text: String)
        ensures
            text@ == self.text(),
    {
        match self {
            WorkspaceError::WorkingDirUnavailable => String::from_str(
                "Could not fetch working dir",
            ),
            WorkspaceError::DataDirUnavailable => String::from_str("Failed to obtain working dir"),
        }
    }
}

/// The working directory below a platform data directory.
pub open spec fn working_dir_of(base: PathBuf) -> LocationView {
    LocationView { base, segments: seq![APP_DIR@] }
}

/// The data directory below a platform data directory.
pub open spec fn data_dir_of(base: PathBuf) -> LocationView {
    working_dir_of(base).join(DATA_DIR@)
}

/// `dirs_next::data_dir`: the per-user data directory that the platform and the
/// environment name, if they name one. Nothing is claimed of which.
#[verifier::external_body]
fn platform_data_dir() -> Option<PathBuf> {
    dirs_next::data_dir()
}

/// The application's working directory, given the platform's data directory: the
/// directory [`APP_DIR`] inside it. Without a data directory there is none.
pub fn working_dir_in(data_dir: Option<PathBuf>) -> (dir: Result<Location, WorkspaceError>)
    ensures
        match data_dir {
            Some(base) => dir is Ok && dir->Ok_0@ == working_dir_of(base),
            None => dir == Err::<Location, WorkspaceError>(WorkspaceError::WorkingDirUnavailable),
        },
{
    match data_dir {
        Some(base) => Ok(Location::at(base).join(APP_DIR)),
        None => Err(WorkspaceError::WorkingDirUnavailable),
    }
}

/// The directory for application data, given the platform's data directory: the
/// directory [`DATA_DIR`] inside the working directory.
pub fn data_dir_in(data_dir: Option<PathBuf>) -> (dir: Result<Location, WorkspaceError>)
    ensures
        match data_dir {
            Some(base) => dir is Ok && dir->Ok_0@ == data_dir_of(base),
            None => dir == Err::<Location, WorkspaceError>(WorkspaceError::DataDirUnavailable),
        },
{
    match working_dir_in(data_dir) {
        Ok(working_dir) => Ok(working_dir.join(DATA_DIR)),
        Err(_) => Err(WorkspaceError::DataDirUnavailable),
    }
}

/// The application's working directory on this machine.
///
/// Which base directory the platform names is not known here; whatever it is, the
/// working directory is [`APP_DIR`] directly below it, and the only failure is
/// that the platform names none.
pub fn get_working_dir() -> (dir: Result<Location, WorkspaceError>)
    ensures
        match dir {
            Ok(location) => location@ == working_dir_of(location@.base),
            Err(error) => error == WorkspaceError::WorkingDirUnavailable,
        },
{
    working_dir_in(platform_data_dir())
}

/// The directory for application data on this machine.
///
/// Whatever base directory the platform names, the data directory is
/// [`DATA_DIR`] inside [`APP_DIR`] below it, and the only failure is that the
/// platform names none.
pub fn get_data_dir() -> (dir: Result<Location, WorkspaceError>)
    ensures
        match dir {
            Ok(location) => location@ == data_dir_of(location@.base),
            Err(error) => error == WorkspaceError::DataDirUnavailable,
        },
{
    data_dir_in(platform_data_dir())
}

/// The settings file of a working directory.
pub fn config_file(working_dir: &Location) -> (file: Location)
    ensures
        file@ == working_dir@.join(CONFIG_FILE@),
{
    working_dir.join(CONFIG_FILE)
}

/// The cache file of a working directory.
pub fn cache_file(working_dir: &Location) -> (file: Location)
    ensures
        file@ == working_dir@.join(CACHE_FILE@),
{
    working_dir.join(CACHE_FILE)
}

/// Whether the workspace has been set up: it has, exactly when the probe of the
/// settings file ([`config_file`] of the working directory) found it.
pub fn is_initalized(config_file_found: bool) -> (initialized: bool)
    ensures
        initialized == config_file_found,
{
    if config_file_found {
        true
    } else {
        false
    }
}

/// What writing a file into a directory takes.
#[derive(Debug, Clone, PartialEq, Eq)]
pub struct WritePlan {
    /// Whether the directory, with its ancestors, has to be created first.
    pub create_dir: bool,
    /// The file to create or truncate, and to write the content to.
    pub target: Location,
}

/// Plans the writing of the file `file_name` inside `dir`: the directory is
/// created first if the probe did not find it, and the file lies directly in it.
pub fn write_plan(dir: &Location, dir_found: bool, file_name: &str) -> (plan: WritePlan)
    ensures
        plan.create_dir == !dir_found,
        plan.target@ == dir@.join(file_name@),
{
    WritePlan { create_dir: !dir_found, target: dir.join(file_name) }
}

/// Failures of settings values to meet what is expected of them.
#[allow(inconsistent_fields)]
#[derive(Debug, Clone, PartialEq, Eq)]
pub enum ConfigError {
    /// A port number outside 1..65535.
    InvalidPort { received: u32 },
    /// A value that does not parse as what was expected.
    FailedToParse { expected: String, received: String },
}

impl ConfigError {
    /// The description that a caller shows for this error.
    pub open spec fn text(self) -> Seq<char> {
        match self {
            ConfigError::InvalidPort { received } => {
                "Invalid port number. expected value in range 1..65535 got "@ + decimal(
                    received as nat,
                )
            },
            ConfigError::FailedToParse { expected, received } => {
                "Failed to parse value. Expected "@ + expected@ + ". Got: "@ + received@
            },
        }
    }

    /// The error as a plain descriptive string.
    pub fn message(&self) -> (text: String)
        ensures
            text@ == self.text(),
    {
        match self {
            ConfigError::InvalidPort { received } => {
                let number = decimal_text(*received);
                String::from_str(
                    "Invalid port number. expected value in range 1..65535 got ",
                ).concat(number.as_str())
            },
            ConfigError::FailedToParse { expected, received } => {
                String::from_str("Failed to parse value. Expected ").concat(
                    expected.as_str(),
                ).concat(". Got: ").concat(received.as_str())
            },
        }
    }
}

/// How much the client logs.
#[derive(Debug, Clone, Copy, PartialEq, Eq)]
pub enum LogLevel {
    Off,
    Error,
    Warn,
    Info,
    Debug,
    Trace,
}

/// The settings document. It is always whole: every section is present.
#[derive(Debug, Clone, PartialEq, Eq)]
pub struct ClientConfig {
    pub log_level: LogLevel,
    pub notification_settings: NotificationConfig,
    pub voice_video_settings: VVConfig,
    pub pivacy_settings: PrivacyConfig,
    pub language_settings: LanguageConfig,
    pub appearance: AppearanceConfig,
}

/// The size of the main window.
#[derive(Debug, Clone, PartialEq, Eq)]
pub enum WindowSize<T> {
    /// Whatever the host gives a new window.
    Default,
    /// The size that the user left the window at.
    Custom { width: T, height: T },
}

impl<T> Default for WindowSize<T> {
    fn default() -> (size: WindowSize<T>)
        ensures
            size == WindowSize::<T>::Default,
    {
        WindowSize::Default
    }
}

/// The cache document.
#[derive(Debug, Clone, PartialEq, Eq)]
pub struct ClientCache {
    pub window_size: WindowSize<u32>,
}

impl ClientConfig {
    /// The settings that the client is compiled with.
    pub open spec fn compiled_default() -> ClientConfig {
        ClientConfig {
            log_level: LogLevel::Info,
            notification_settings: NotificationConfig {
                direct_messages: true,
                mentions: true,
                server_updates: true,
                event_reminders: true,
                play_notification_sounds: true,
                email_notifications: false,
                desktop_notifications: true,
                mobile_notifications: true,
            },
            voice_video_settings: VVConfig {
                input_vol: 100,
                output_vol: 100,
                input_device: IOType::Unset,
                output_device: IOType::Unset,
                noise_spression: true,
                echo_cancellation: true,
            },
            pivacy_settings: PrivacyConfig {
                read_receipts: false,
                show_activity_status: true,
                show_typing_indicator: true,
                safety_mode: false,
            },
            language_settings: LanguageConfig {
                current_language: Language::Auto,
                spell_check: true,
            },
            appearance: AppearanceConfig {
                current_theme_variation: Theme::System,
                font_size: 12,
                allow_message_grouping: true,
                animate_emoji: true,
            },
        }
    }
}

impl Default for ClientConfig {
    fn default() -> (document: ClientConfig)
        ensures
            document == ClientConfig::compiled_default(),
    {
        ClientConfig {
            log_level: LogLevel::Info,
            notification_settings: NotificationConfig {
                direct_messages: true,
                mentions: true,
                server_updates: true,
                event_reminders: true,
                play_notification_sounds: true,
                email_notifications: false,
                desktop_notifications: true,
                mobile_notifications: true,
            },
            voice_video_settings: VVConfig {
                input_vol: 100,
                output_vol: 100,
                input_device: IOType::Unset,
                output_device: IOType::Unset,
                noise_spression: true,
                echo_cancellation: true,
            },
            pivacy_settings: PrivacyConfig {
                read_receipts: false,
                show_activity_status: true,
                show_typing_indicator: true,
                safety_mode: false,
            },
            language_settings: LanguageConfig {
                current_language: Language::Auto,
                spell_check: true,
            },
            appearance: AppearanceConfig {
                current_theme_variation: Theme::System,
                font_size: 12,
                allow_message_grouping: true,
                animate_emoji: true,
            },
        }
    }
}

impl ClientCache {
    /// The cache that the client is compiled with: no window size remembered.
    pub open spec fn compiled_default() -> ClientCache {
        ClientCache { window_size: WindowSize::Default }
    }
}

impl Default for ClientCache {
    fn default() -> (document: ClientCache)
        ensures
            document == ClientCache::compiled_default(),
    {
        ClientCache { window_size: WindowSize::Default }
    }
}

/// What the first read of a document's file gave.
#[derive(Debug, Clone, PartialEq, Eq)]
pub enum FirstRead<T> {
    /// The file is there and holds this document.
    Parsed(T),
    /// The file is there and does not parse.
    Malformed,
    /// There is no such file.
    Missing,
    /// The file could not be read for another reason.
    Unreadable,
}

/// The document to start with, and what to do on disk.
#[derive(Debug, Clone, PartialEq, Eq)]
pub struct Startup<T> {
    /// The document held in memory from now on.
    pub document: T,
    /// Whether `document`, which is then the default, is to be written to the
    /// file. Nothing else is ever written or removed.
    pub write_default: bool,
}

/// The start of a document, by what the first read gave: a document read from
/// the file is used as it is; in every other case the default is used, and it is
/// written out only where the file was missing.
pub open spec fn startup_of<T>(read: FirstRead<T>, fallback: T) -> Startup<T> {
    match read {
        FirstRead::Parsed(document) => Startup { document, write_default: false },
        FirstRead::Malformed => Startup { document: fallback, write_default: false },
        FirstRead::Missing => Startup { document: fallback, write_default: true },
        FirstRead::Unreadable => Startup { document: fallback, write_default: false },
    }
}

/// Decides how a document starts, given the outcome of the first read of its
/// file and the default to fall back on.
pub fn initial_document<T>(read: FirstRead<T>, fallback: T) -> (startup: Startup<T>)
    ensures
        startup == startup_of(read, fallback),
{
    match read {
        FirstRead::Parsed(document) => Startup { document, write_default: false },
        FirstRead::Malformed => Startup { document: fallback, write_default: false },
        FirstRead::Missing => Startup { document: fallback, write_default: true },
        FirstRead::Unreadable => Startup { document: fallback, write_default: false },
    }
}

/// How the settings document starts.
pub fn initial_config(read: FirstRead<ClientConfig>) -> (startup: Startup<ClientConfig>)
    ensures
        startup == startup_of(read, ClientConfig::compiled_default()),
{
    initial_document(read, ClientConfig::default())
}

/// How the cache document starts.
pub fn initial_cache(read: FirstRead<ClientCache>) -> (startup: Startup<ClientCache>)
    ensures
        startup == startup_of(read, ClientCache::compiled_default()),
{
    initial_document(read, ClientCache::default())
}

/// A first run is not repeated: where the file was missing, the default is used
/// and written; a second start that reads that document back uses the same
/// document and writes nothing.
pub proof fn lemma_first_run_happens_once<T>(fallback: T)
    ensures
        startup_of(FirstRead::Missing, fallback) == (Startup {
            document: fallback,
            write_default: true,
        }),
        startup_of(
            FirstRead::Parsed(startup_of(FirstRead::Missing, fallback).document),
            fallback,
        ) == (Startup { document: fallback, write_default: false }),
{
}

/// A file that does not parse yields the default in memory and is left as it is:
/// nothing is written.
pub proof fn lemma_malformed_file_is_kept<T>(fallback: T)
    ensures
        startup_of(FirstRead::<T>::Malformed, fallback) == (Startup {
            document: fallback,
            write_default: false,
        }),
{
}

/// The default is written in one case only: that the file was missing.
pub proof fn lemma_written_only_when_missing<T>(read: FirstRead<T>, fallback: T)
    ensures
        startup_of(read, fallback).write_default <==> read is Missing,
        !(read is Parsed) ==> startup_of(read, fallback).document == fallback,
{
}

} // verus!
