//! The sections of the settings document.
//!
//! Every section is plain data. A document always holds every field: there is no
//! partial section and no field-level update.

use vstd::prelude::*;

verus! {

/// Which events raise a notification, and through which channels.
#[derive(Debug, Clone, PartialEq, Eq)]
pub struct NotificationConfig {
    pub direct_messages: bool,
    pub mentions: bool,
    pub server_updates: bool,
    pub event_reminders: bool,
    pub play_notification_sounds: bool,
    pub email_notifications: bool,
    pub desktop_notifications: bool,
    pub mobile_notifications: bool,
}

/// The colour scheme.
#[derive(Debug, Clone, PartialEq, Eq)]
pub enum Theme {
    Dark,
    Light,
    System,
}

impl Default for Theme {
    fn default() -> (theme: Theme)
        ensures
            theme == Theme::Dark,
    {
        Theme::Dark
    }
}

/// How the client looks.
#[derive(Debug, Clone, PartialEq, Eq)]
pub struct AppearanceConfig {
    pub current_theme_variation: Theme,
    pub font_size: u8,
    pub allow_message_grouping: bool,
    pub animate_emoji: bool,
}

/// The choice of an audio or video device.
#[derive(Debug, Clone, PartialEq, Eq)]
pub enum IOType {
    /// No device is chosen.
    Unset,
    /// The system's default device, by name.
    Default(String),
    /// A device that the user picked, by name.
    Custom(String),
}

impl Default for IOType {
    fn default() -> (device: IOType)
        ensures
            device == IOType::Unset,
    {
        IOType::Unset
    }
}

/// Voice and video: levels, devices and filters.
#[derive(Debug, Clone, PartialEq, Eq)]
pub struct VVConfig {
    pub input_vol: u16,
    pub output_vol: u16,
    pub input_device: IOType,
    pub output_device: IOType,
    pub noise_spression: bool,
    pub echo_cancellation: bool,
}

/// Who may reach the user.
#[derive(Debug, Clone, PartialEq, Eq)]
pub enum AllowList {
    Everyone,
    FriendsOnly,
    Nobody,
}

impl Default for AllowList {
    fn default() -> (list: AllowList)
        ensures
            list == AllowList::Everyone,
    {
        AllowList::Everyone
    }
}

/// What the client tells others about the user.
#[derive(Debug, Clone, PartialEq, Eq)]
pub struct PrivacyConfig {
    pub read_receipts: bool,
    pub show_activity_status: bool,
    pub show_typing_indicator: bool,
    pub safety_mode: bool,
}

/// How messages are laid out.
#[derive(Debug, Clone, PartialEq, Eq)]
pub struct TextConfig {
    pub compact_mode: bool,
    pub show_link_preview: bool,
    pub auto_play_gifs: bool,
}

/// The language of the interface.
#[derive(Debug, Clone, PartialEq, Eq)]
pub enum Language {
    /// Follow the system.
    Auto,
    English,
    EnglishSimplified,
    French,
    Deutsch,
}

impl Default for Language {
    fn default() -> (language: Language)
        ensures
            language == Language::Auto,
    {
        Language::Auto
    }
}

/// Language and spell checking.
#[derive(Debug, Clone, PartialEq, Eq)]
pub struct LanguageConfig {
    pub current_language: Language,
    pub spell_check: bool,
}

} // verus!
