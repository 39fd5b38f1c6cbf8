use occult::commands::get_cache;
use occult::commands::get_config;
use occult::commands::set_cache;
use occult::commands::set_config;
use occult::commands::DiskWrites;
use occult::commands::SettingsStore;
use occult::workspace::config::IOType;
use occult::workspace::config::Language;
use occult::workspace::config::Theme;
use occult::workspace::ClientCache;
use occult::workspace::ClientConfig;
use occult::workspace::FirstRead;
use occult::workspace::LogLevel;
use occult::workspace::WindowSize;

fn fresh_store() -> SettingsStore {
    SettingsStore { config: ClientConfig::default(), cache: ClientCache::default() }
}

fn edited_config() -> ClientConfig {
    let mut config = ClientConfig::default();
    config.log_level = LogLevel::Debug;
    config.appearance.current_theme_variation = Theme::Dark;
    config.appearance.font_size = 18;
    config.language_settings.current_language = Language::French;
    config.voice_video_settings.input_device = IOType::Custom("USB microphone".to_string());
    config.notification_settings.email_notifications = true;
    config
}

#[test]
fn document_that_was_set_is_the_document_that_is_read() {
    let mut store = fresh_store();
    let document = edited_config();
    assert_eq!(set_config(&mut store, Ok(document.clone())), Ok(()));
    assert_eq!(get_config(&store), &document);
    assert_eq!(get_cache(&store), &ClientCache::default());
}

#[test]
fn cache_that_was_set_is_the_cache_that_is_read() {
    let mut store = fresh_store();
    let cache = ClientCache { window_size: WindowSize::Custom { width: 800, height: 600 } };
    assert_eq!(set_cache(&mut store, Ok(cache.clone())), Ok(()));
    assert_eq!(get_cache(&store), &cache);
    assert_eq!(get_config(&store), &ClientConfig::default());
}

#[test]
fn candidate_that_did_not_parse_changes_nothing() {
    let mut store = fresh_store();
    assert_eq!(set_config(&mut store, Ok(edited_config())), Ok(()));
    let before = store.clone();
    let reply = set_config(&mut store, Err("expected value at line 1 column 1".to_string()));
    assert_eq!(reply, Err("expected value at line 1 column 1".to_string()));
    assert_eq!(store, before);
    let reply = set_cache(&mut store, Err("missing field `window_size`".to_string()));
    assert_eq!(reply, Err("missing field `window_size`".to_string()));
    assert_eq!(store, before);
}

#[test]
fn last_document_set_wins() {
    let mut store = fresh_store();
    let mut first = edited_config();
    first.appearance.font_size = 9;
    let second = edited_config();
    assert_eq!(set_config(&mut store, Ok(first)), Ok(()));
    assert_eq!(set_config(&mut store, Ok(second.clone())), Ok(()));
    assert_eq!(get_config(&store), &second);
}

#[test]
fn store_loads_each_document_on_its_own() {
    let stored = edited_config();
    let (store, writes) = SettingsStore::load(FirstRead::Parsed(stored.clone()), FirstRead::Missing);
    assert_eq!(store.config, stored);
    assert_eq!(store.cache, ClientCache::default());
    assert_eq!(writes, DiskWrites { write_config: false, write_cache: true });

    let (store, writes) = SettingsStore::load(FirstRead::Malformed, FirstRead::Unreadable);
    assert_eq!(store, fresh_store());
    assert_eq!(writes, DiskWrites { write_config: false, write_cache: false });

    let cache = ClientCache { window_size: WindowSize::Custom { width: 1, height: 2 } };
    let (store, writes) = SettingsStore::load(FirstRead::Missing, FirstRead::Parsed(cache.clone()));
    assert_eq!(store.config, ClientConfig::default());
    assert_eq!(store.cache, cache);
    assert_eq!(writes, DiskWrites { write_config: true, write_cache: false });
}
