use scroll_lock_keeper::settings::{
    settings_file_text, settings_or_default, settings_path_parts, Settings, DEFAULT_INTERVAL_SECS,
    SETTINGS_DIR, SETTINGS_FILE,
};

#[test]
fn default_interval_is_four_minutes() {
    assert_eq!(DEFAULT_INTERVAL_SECS, 240);
    assert_eq!(Settings::default(), Settings { interval_secs: 240 });
}

#[test]
fn stored_settings_win_over_defaults() {
    assert_eq!(settings_or_default(Some(Settings { interval_secs: 60 })).interval_secs, 60);
    assert_eq!(settings_or_default(Some(Settings { interval_secs: 0 })).interval_secs, 0);
    assert_eq!(settings_or_default(None).interval_secs, 240);
}

#[test]
fn unserializable_settings_write_an_empty_object() {
    assert_eq!(settings_file_text(None), "{}");
    let text = "{\n  \"interval_secs\": 300\n}".to_string();
    assert_eq!(settings_file_text(Some(text.clone())), text);
}

#[test]
fn settings_live_under_the_user_data_directory() {
    assert_eq!(SETTINGS_DIR, "ScrollLockKeeper");
    assert_eq!(SETTINGS_FILE, "settings.json");
    let parts = settings_path_parts(Some("C:\\Users\\a\\AppData\\Roaming".to_string()));
    assert_eq!(parts, vec![
        "C:\\Users\\a\\AppData\\Roaming".to_string(),
        "ScrollLockKeeper".to_string(),
        "settings.json".to_string(),
    ]);
}

#[test]
fn without_user_data_directory_the_path_is_relative() {
    assert_eq!(settings_path_parts(None), vec!["ScrollLockKeeper".to_string(), "settings.json".to_string()]);
}
