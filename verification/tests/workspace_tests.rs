use occult::workspace::cache_file;
use occult::workspace::config::AllowList;
use occult::workspace::config::AppearanceConfig;
use occult::workspace::config::IOType;
use occult::workspace::config::Language;
use occult::workspace::config::LanguageConfig;
use occult::workspace::config::NotificationConfig;
use occult::workspace::config::PrivacyConfig;
use occult::workspace::config::TextConfig;
use occult::workspace::config::Theme;
use occult::workspace::config::VVConfig;
use occult::workspace::config_file;
use occult::workspace::data_dir_in;
use occult::workspace::get_data_dir;
use occult::workspace::get_working_dir;
use occult::workspace::initial_cache;
use occult::workspace::initial_config;
use occult::workspace::initial_document;
use occult::workspace::is_initalized;
use occult::workspace::working_dir_in;
use occult::workspace::write_plan;
use occult::workspace::ClientCache;
use occult::workspace::ClientConfig;
use occult::workspace::ConfigError;
use occult::workspace::FirstRead;
use occult::workspace::Location;
use occult::workspace::LogLevel;
use occult::workspace::Startup;
use occult::workspace::WindowSize;
use occult::workspace::WorkspaceError;
use occult::workspace::APP_DIR;
use occult::workspace::CACHE_FILE;
use occult::workspace::CONFIG_FILE;
use occult::workspace::DATA_DIR;
use std::path::PathBuf;

fn names(location: &Location) -> Vec<&str> {
    location.segments.iter().map(|segment| segment.as_str()).collect()
}

fn resolve(location: &Location) -> PathBuf {
    let mut path = location.base.clone();
    for segment in &location.segments {
        path.push(segment);
    }
    path
}

fn custom_config() -> ClientConfig {
    ClientConfig {
        log_level: LogLevel::Trace,
        notification_settings: NotificationConfig {
            direct_messages: false,
            mentions: true,
            server_updates: false,
            event_reminders: true,
            play_notification_sounds: false,
            email_notifications: true,
            desktop_notifications: false,
            mobile_notifications: true,
        },
        voice_video_settings: VVConfig {
            input_vol: 7,
            output_vol: 65535,
            input_device: IOType::Default("Built-in microphone".to_string()),
            output_device: IOType::Custom("Headset".to_string()),
            noise_spression: false,
            echo_cancellation: false,
        },
        pivacy_settings: PrivacyConfig {
            read_receipts: true,
            show_activity_status: false,
            show_typing_indicator: false,
            safety_mode: true,
        },
        language_settings: LanguageConfig {
            current_language: Language::Deutsch,
            spell_check: false,
        },
        appearance: AppearanceConfig {
            current_theme_variation: Theme::Light,
            font_size: 20,
            allow_message_grouping: false,
            animate_emoji: false,
        },
    }
}

#[test]
fn names_of_the_workspace_files() {
    assert_eq!(APP_DIR, "occult");
    assert_eq!(DATA_DIR, "data");
    assert_eq!(CONFIG_FILE, ".occult.config.toml");
    assert_eq!(CACHE_FILE, ".occult.cache.toml");
}

#[test]
fn working_dir_lies_below_the_data_dir() {
    let base = PathBuf::from("/home/alice/.local/share");
    let dir = working_dir_in(Some(base.clone())).unwrap();
    assert_eq!(dir.base, base);
    assert_eq!(names(&dir), vec!["occult"]);
    assert_eq!(resolve(&dir), PathBuf::from("/home/alice/.local/share/occult"));
}

#[test]
fn working_dir_needs_a_data_dir() {
    assert_eq!(working_dir_in(None), Err(WorkspaceError::WorkingDirUnavailable));
}

#[test]
fn data_dir_lies_below_the_working_dir() {
    let base = PathBuf::from("/home/alice/.local/share");
    let dir = data_dir_in(Some(base.clone())).unwrap();
    assert_eq!(dir.base, base);
    assert_eq!(names(&dir), vec!["occult", "data"]);
    assert_eq!(resolve(&dir), PathBuf::from("/home/alice/.local/share/occult/data"));
    assert_eq!(data_dir_in(None), Err(WorkspaceError::DataDirUnavailable));
}

#[test]
fn working_dir_on_this_machine_follows_the_platform() {
    match dirs_next::data_dir() {
        Some(base) => {
            let dir = get_working_dir().unwrap();
            assert_eq!(dir.base, base);
            assert_eq!(names(&dir), vec!["occult"]);
            let mut expected = base;
            expected.push("occult");
            assert_eq!(resolve(&dir), expected);
        }
        None => assert_eq!(get_working_dir(), Err(WorkspaceError::WorkingDirUnavailable)),
    }
}

#[test]
fn data_dir_on_this_machine_follows_the_platform() {
    match dirs_next::data_dir() {
        Some(base) => {
            let dir = get_data_dir().unwrap();
            assert_eq!(dir.base, base);
            assert_eq!(names(&dir), vec!["occult", "data"]);
        }
        None => assert_eq!(get_data_dir(), Err(WorkspaceError::DataDirUnavailable)),
    }
}

#[test]
fn settings_and_cache_files_lie_in_the_working_dir() {
    let dir = working_dir_in(Some(PathBuf::from("/srv/data"))).unwrap();
    let config = config_file(&dir);
    let cache = cache_file(&dir);
    assert_eq!(names(&config), vec!["occult", ".occult.config.toml"]);
    assert_eq!(names(&cache), vec!["occult", ".occult.cache.toml"]);
    assert_eq!(resolve(&config), PathBuf::from("/srv/data/occult/.occult.config.toml"));
    assert_eq!(resolve(&cache), PathBuf::from("/srv/data/occult/.occult.cache.toml"));
    assert_eq!(config.base, dir.base);
}

#[test]
fn locations_grow_one_level_at_a_time() {
    let root = Location::at(PathBuf::from("/var"));
    assert!(root.segments.is_empty());
    let deeper = root.join("lib").join("occult");
    assert_eq!(names(&deeper), vec!["lib", "occult"]);
    assert_eq!(deeper.base, PathBuf::from("/var"));
    assert_eq!(root.clone(), root);
    assert_eq!(deeper.clone(), deeper);
    assert_eq!(deeper.clone().segments, vec!["lib".to_string(), "occult".to_string()]);
}

#[test]
fn workspace_errors_read_as_plain_text() {
    assert_eq!(WorkspaceError::WorkingDirUnavailable.message(), "Could not fetch working dir");
    assert_eq!(WorkspaceError::DataDirUnavailable.message(), "Failed to obtain working dir");
}

#[test]
fn workspace_is_initialized_when_the_settings_file_is_found() {
    assert!(is_initalized(true));
    assert!(!is_initalized(false));
}

#[test]
fn writing_creates_a_missing_directory_first() {
    let dir = data_dir_in(Some(PathBuf::from("/srv"))).unwrap();
    let plan = write_plan(&dir, false, "notes.txt");
    assert!(plan.create_dir);
    assert_eq!(names(&plan.target), vec!["occult", "data", "notes.txt"]);
    assert_eq!(plan.target.base, dir.base);
    let again = write_plan(&dir, true, "notes.txt");
    assert!(!again.create_dir);
    assert_eq!(names(&again.target), vec!["occult", "data", "notes.txt"]);
}

#[test]
fn compiled_in_settings() {
    let config = ClientConfig::default();
    assert_eq!(config.log_level, LogLevel::Info);
    assert_eq!(
        config.notification_settings,
        NotificationConfig {
            direct_messages: true,
            mentions: true,
            server_updates: true,
            event_reminders: true,
            play_notification_sounds: true,
            email_notifications: false,
            desktop_notifications: true,
            mobile_notifications: true,
        }
    );
    assert_eq!(
        config.voice_video_settings,
        VVConfig {
            input_vol: 100,
            output_vol: 100,
            input_device: IOType::Unset,
            output_device: IOType::Unset,
            noise_spression: true,
            echo_cancellation: true,
        }
    );
    assert_eq!(
        config.pivacy_settings,
        PrivacyConfig {
            read_receipts: false,
            show_activity_status: true,
            show_typing_indicator: true,
            safety_mode: false,
        }
    );
    assert_eq!(
        config.language_settings,
        LanguageConfig { current_language: Language::Auto, spell_check: true }
    );
    assert_eq!(
        config.appearance,
        AppearanceConfig {
            current_theme_variation: Theme::System,
            font_size: 12,
            allow_message_grouping: true,
            animate_emoji: true,
        }
    );
}

#[test]
fn compiled_in_cache_and_section_defaults() {
    assert_eq!(ClientCache::default(), ClientCache { window_size: WindowSize::Default });
    assert_eq!(WindowSize::<u32>::default(), WindowSize::Default);
    assert_eq!(Theme::default(), Theme::Dark);
    assert_eq!(IOType::default(), IOType::Unset);
    assert_eq!(AllowList::default(), AllowList::Everyone);
    assert_eq!(Language::default(), Language::Auto);
}

#[test]
fn sections_outside_the_document_hold_their_fields() {
    let text = TextConfig { compact_mode: true, show_link_preview: false, auto_play_gifs: true };
    assert_eq!(text.clone(), text);
    assert!(AllowList::FriendsOnly != AllowList::Nobody);
    let port = ConfigError::InvalidPort { received: 70000 };
    assert_eq!(port, ConfigError::InvalidPort { received: 70000 });
    let parse = ConfigError::FailedToParse {
        expected: "a number".to_string(),
        received: "seven".to_string(),
    };
    assert!(parse != port);
}

#[test]
fn first_run_writes_the_default_once() {
    let first = initial_config(FirstRead::Missing);
    assert_eq!(first, Startup { document: ClientConfig::default(), write_default: true });
    let second = initial_config(FirstRead::Parsed(first.document.clone()));
    assert_eq!(second, Startup { document: ClientConfig::default(), write_default: false });

    let cache = initial_cache(FirstRead::Missing);
    assert_eq!(cache, Startup { document: ClientCache::default(), write_default: true });
    let cache_again = initial_cache(FirstRead::Parsed(cache.document.clone()));
    assert_eq!(cache_again, Startup { document: ClientCache::default(), write_default: false });
}

#[test]
fn malformed_file_gives_the_default_and_is_not_overwritten() {
    assert_eq!(
        initial_config(FirstRead::Malformed),
        Startup { document: ClientConfig::default(), write_default: false }
    );
    assert_eq!(
        initial_cache(FirstRead::Malformed),
        Startup { document: ClientCache::default(), write_default: false }
    );
}

#[test]
fn unreadable_file_gives_the_default_without_writing() {
    assert_eq!(
        initial_config(FirstRead::Unreadable),
        Startup { document: ClientConfig::default(), write_default: false }
    );
    assert_eq!(
        initial_cache(FirstRead::Unreadable),
        Startup { document: ClientCache::default(), write_default: false }
    );
}

#[test]
fn parsed_file_is_used_as_it_is() {
    let stored = custom_config();
    assert_eq!(
        initial_config(FirstRead::Parsed(stored.clone())),
        Startup { document: stored, write_default: false }
    );
    let cache = ClientCache { window_size: WindowSize::Custom { width: 1280, height: 720 } };
    assert_eq!(
        initial_cache(FirstRead::Parsed(cache.clone())),
        Startup { document: cache, write_default: false }
    );
}

#[test]
fn any_document_starts_by_the_same_rule() {
    assert_eq!(
        initial_document(FirstRead::Parsed(5u8), 9u8),
        Startup { document: 5, write_default: false }
    );
    assert_eq!(
        initial_document(FirstRead::Malformed, 9u8),
        Startup { document: 9, write_default: false }
    );
    assert_eq!(
        initial_document(FirstRead::Missing, 9u8),
        Startup { document: 9, write_default: true }
    );
    assert_eq!(
        initial_document(FirstRead::Unreadable, 9u8),
        Startup { document: 9, write_default: false }
    );
}
