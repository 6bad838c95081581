use watch_presence::settings::{resolve_stored, Settings, SettingsFileError, StoredSettings};
use watch_presence::user_store::{UserStore, USER_ID_KEY};

fn switches(s: &Settings) -> [bool; 6] {
    [
        s.show_anime_title,
        s.show_episode_title,
        s.show_episode_number,
        s.show_progress,
        s.show_timestamp,
        s.enabled,
    ]
}

fn custom() -> Settings {
    Settings {
        user_id: Some("abc".to_string()),
        show_anime_title: false,
        show_episode_title: true,
        show_episode_number: false,
        show_progress: true,
        show_timestamp: false,
        enabled: true,
    }
}

#[test]
fn missing_file_gives_everything_shown() {
    let (s, rewrite) = resolve_stored(StoredSettings::Missing).unwrap();
    assert_eq!(s.user_id, None);
    assert_eq!(switches(&s), [true; 6]);
    assert!(!rewrite);
}

#[test]
fn current_file_is_kept_as_is() {
    let (s, rewrite) = resolve_stored(StoredSettings::Current(custom())).unwrap();
    assert_eq!(s.user_id.as_deref(), Some("abc"));
    assert_eq!(switches(&s), switches(&custom()));
    assert!(!rewrite);
}

#[test]
fn legacy_file_is_upgraded_and_rewritten() {
    let (s, rewrite) =
        resolve_stored(StoredSettings::Legacy(Some("old-user".to_string()))).unwrap();
    assert_eq!(s.user_id.as_deref(), Some("old-user"));
    assert_eq!(switches(&s), [true; 6]);
    assert!(rewrite);

    let (s, rewrite) = resolve_stored(StoredSettings::Legacy(None)).unwrap();
    assert_eq!(s.user_id, None);
    assert!(rewrite);
}

#[test]
fn unreadable_and_unparsable_files_are_errors() {
    let e = resolve_stored(StoredSettings::Unreadable("permission denied".to_string()));
    assert_eq!(e.unwrap_err(), "Failed to read settings file: permission denied");
    let e = resolve_stored(StoredSettings::Unparsable("expected value at line 1".to_string()));
    assert_eq!(
        e.unwrap_err(),
        "Failed to parse settings file: expected value at line 1"
    );
}

#[test]
fn file_error_messages() {
    let d = || "boom".to_string();
    assert_eq!(
        SettingsFileError::AppDataDir(d()).message(),
        "Failed to get app data directory: boom"
    );
    assert_eq!(
        SettingsFileError::CreateDir(d()).message(),
        "Failed to create app data directory: boom"
    );
    assert_eq!(
        SettingsFileError::Serialize(d()).message(),
        "Failed to serialize settings: boom"
    );
    assert_eq!(
        SettingsFileError::Write(d()).message(),
        "Failed to write settings file: boom"
    );
    assert_eq!(
        SettingsFileError::Delete(d()).message(),
        "Failed to delete settings file: boom"
    );
}

#[test]
fn default_settings_are_all_off() {
    let s = Settings::default();
    assert_eq!(s.user_id, None);
    assert_eq!(switches(&s), [false; 6]);
}

#[test]
fn with_user_id_keeps_switches() {
    let s = custom().with_user_id("new".to_string());
    assert_eq!(s.user_id.as_deref(), Some("new"));
    assert_eq!(switches(&s), switches(&custom()));
}

#[test]
fn store_reads_back_writes() {
    let mut store = UserStore::new();
    assert_eq!(store.get("userId"), None);
    store.insert("a".to_string(), "1".to_string());
    store.insert("b".to_string(), "2".to_string());
    store.insert("a".to_string(), "3".to_string());
    assert_eq!(store.get("a").as_deref(), Some("3"));
    assert_eq!(store.get("b").as_deref(), Some("2"));
    assert_eq!(store.get("c"), None);
}

#[test]
fn reported_user_id_prefers_settings_and_is_kept() {
    let mut store = UserStore::new();
    let mut s = custom();
    s.user_id = None;
    assert_eq!(store.report_user_id(&s), None);

    store.set_user_id("from-store".to_string());
    assert_eq!(store.report_user_id(&s).as_deref(), Some("from-store"));

    let s = s.with_user_id("from-settings".to_string());
    assert_eq!(store.report_user_id(&s).as_deref(), Some("from-settings"));
    assert_eq!(store.get(USER_ID_KEY).as_deref(), Some("from-settings"));
}
