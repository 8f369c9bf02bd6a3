use quarterdeck::ipc::SettingValue;
use quarterdeck::json::{parse, text, Json};
use quarterdeck::session_names;
use quarterdeck::settings::{
    answers_dir, asks_dir, hooks_dir, join_path, load, logs_dir, perm_answers_dir, perms_dir,
    platform_data_dir, resolve_data_dir, save, set_setting, settings_path, spool_dir,
    spool_quarantine_dir, strip_bom, Platform, PopupMode, Settings,
};
use std::path::PathBuf;

fn extra<'a>(settings: &'a Settings, key: &str) -> Option<&'a Json> {
    settings.extra.iter().find(|(k, _)| k == key).map(|(_, v)| v)
}

fn platform() -> String {
    platform_data_dir(Platform::Other, None, "/tmp")
}

#[test]
fn resolve_data_dir_prefers_override() {
    let resolved = resolve_data_dir(Some("C:/qd-data".to_string()), platform());
    assert_eq!(PathBuf::from(resolved), PathBuf::from("C:/qd-data"));
}

#[test]
fn resolve_data_dir_ignores_empty_override() {
    let resolved = resolve_data_dir(Some(String::new()), platform());
    assert_eq!(resolved, platform());
}

#[test]
fn resolve_data_dir_falls_back_without_override() {
    assert_eq!(resolve_data_dir(None, platform()), platform());
}

#[test]
fn each_platform_has_its_data_root() {
    assert_eq!(
        platform_data_dir(Platform::Windows, Some("C:/Users/p/AppData"), "C:/tmp"),
        "C:/Users/p/AppData\\quarterdeck"
    );
    assert_eq!(
        platform_data_dir(Platform::MacOs, Some("/Users/p"), "/tmp"),
        "/Users/p/Library/Application Support/quarterdeck"
    );
    assert_eq!(platform_data_dir(Platform::MacOs, None, "/tmp"), "/tmp/quarterdeck");
    assert_eq!(platform_data_dir(Platform::Other, Some("/home/p"), "/tmp/"), "/tmp/quarterdeck");
}

#[test]
fn paths_are_written_as_each_platform_writes_them() {
    let windows = |dir: &str| join_path(Platform::Windows, dir, "spool");
    assert_eq!(windows("C:\\data"), "C:\\data\\spool");
    assert_eq!(windows("C:\\data\\"), "C:\\data\\spool");
    assert_eq!(windows("C:/data/"), "C:/data/spool");
    assert_eq!(windows("C:"), "C:spool");
    assert_eq!(windows("ab:"), "ab:\\spool");
    assert_eq!(windows(""), "spool");
    assert_eq!(windows("\\\\?\\C:\\a/"), "\\\\?\\C:\\a/\\spool");
    assert_eq!(windows("\\\\?\\C:\\a\\"), "\\\\?\\C:\\a\\spool");
    assert_eq!(join_path(Platform::Other, "C:", "spool"), "C:/spool");
    assert_eq!(join_path(Platform::MacOs, "/a\\", "spool"), "/a\\/spool");
    assert_eq!(spool_dir(Platform::Windows, "D:\\q"), "D:\\q\\spool");
}

#[test]
fn load_missing_file_returns_defaults() {
    let settings = load(None);
    assert_eq!(settings, Settings::default());
    assert!(settings.notify_idle);
    assert!(settings.notify_attention);
    assert!(!settings.notify_reminder);
}

#[test]
fn load_malformed_file_returns_defaults_never_crashes() {
    assert_eq!(load(Some("{ not json")), Settings::default());
    assert_eq!(load(Some("[true]")), Settings::default());
    assert!(session_names::load(Some("{ not json")).is_empty());
}

#[test]
fn load_wrong_typed_known_field_only_resets_that_field_preserves_the_rest() {
    let loaded = load(Some(
        r#"{"notifyIdle":"yes","onboardingDone":true,"launchAtLogin":true,"customKeepMe":"must-survive"}"#,
    ));
    assert!(loaded.notify_idle, "wrong-typed notifyIdle: field default");
    assert!(loaded.onboarding_done, "onboardingDone preserved");
    assert!(loaded.launch_at_login, "launchAtLogin preserved");
    assert_eq!(
        extra(&loaded, "customKeepMe"),
        Some(&text("must-survive")),
        "unknown key survives a wrong-typed known field"
    );
    assert!(extra(&loaded, "notifyIdle").is_none());
}

#[test]
fn load_tolerates_a_utf8_bom_and_preserves_all_keys() {
    let mut bytes = vec![0xEF, 0xBB, 0xBF];
    bytes.extend_from_slice(
        br#"{"launchAtLogin": true, "onboardingDone": true, "futureFlag": "keep"}"#,
    );
    let loaded = load(Some(&String::from_utf8(bytes).unwrap()));
    assert!(loaded.launch_at_login, "known key survives the BOM");
    assert!(loaded.onboarding_done);
    assert_eq!(
        extra(&loaded, "futureFlag"),
        Some(&text("keep")),
        "unknown key preserved across a BOM-prefixed load"
    );
}

#[test]
fn settings_save_then_load_roundtrips() {
    let settings = Settings {
        notify_reminder: true,
        onboarding_done: true,
        ..Default::default()
    };
    assert_eq!(load(Some(&save(&settings))), settings);
}

#[test]
fn nested_unknown_keys_survive_a_save() {
    let before = load(Some(
        r#"{"a":{"b":[1,-2,"x",null,{"c":18446744073709551615}]},"popupPinned":true}"#,
    ));
    let after = load(Some(&save(&before)));
    assert_eq!(after, before);
    assert!(after.popup_pinned);
    assert_eq!(extra(&after, "a"), Some(&parse(r#"{"b":[1,-2,"x",null,{"c":18446744073709551615}]}"#).unwrap()));
}

#[test]
fn the_order_of_unknown_keys_does_not_matter() {
    let mut a = Settings::default();
    a.apply("zeta", SettingValue::Bool(true));
    a.apply("alpha", SettingValue::Text("x".to_string()));
    let b = load(Some(&save(&a)));
    assert_eq!(a, b);
    let mut c = load(Some(&save(&a)));
    c.apply("alpha", SettingValue::Text("y".to_string()));
    assert_ne!(a, c);
    assert_ne!(a, Settings::default());
    assert_ne!(Settings::default(), a);
}

#[test]
fn what_extra_says_of_a_field_counts() {
    let settings = Settings {
        extra: vec![("notifyIdle".to_string(), Json::Bool(false))],
        ..Default::default()
    };
    assert!(settings.notify_idle);
    let loaded = load(Some(&save(&settings)));
    assert!(!loaded.notify_idle);
    assert!(loaded.extra.is_empty());
}

#[test]
fn deep_settings_survive_a_change() {
    let deep = format!("{{\"k\":{}{}}}", "[".repeat(126), "]".repeat(126));
    let (changed, saved) = set_setting(Some(&deep), "x", SettingValue::Bool(true));
    assert!(extra(&changed, "k").is_some());
    assert_eq!(load(Some(&saved)), changed);
}

#[test]
fn a_saved_file_is_indented() {
    let saved = save(&Settings::default());
    assert!(saved.starts_with("{\n  \""));
    assert!(saved.contains("\"notifyIdle\": true"));
    assert!(saved.contains("\"popupPinned\": false"));
}

#[test]
fn unknown_keys_are_preserved_across_a_set_setting_round_trip() {
    let stored = r#"{"notifyIdle": true, "notifyAttention": true, "futureFeatureFlag": "beta"}"#;
    let (updated, saved) = set_setting(Some(stored), "notifyReminder", SettingValue::Bool(true));
    assert!(updated.notify_reminder);
    assert_eq!(extra(&updated, "futureFeatureFlag"), Some(&text("beta")));

    let reloaded = load(Some(&saved));
    assert_eq!(extra(&reloaded, "futureFeatureFlag"), Some(&text("beta")));
    assert!(reloaded.notify_reminder);
}

#[test]
fn apply_sets_known_boolean_fields() {
    let mut settings = Settings::default();
    settings.apply("launchAtLogin", SettingValue::Bool(true));
    assert!(settings.launch_at_login);
    settings.apply("notifyIdle", SettingValue::Bool(false));
    assert!(!settings.notify_idle);
    settings.apply("popupPinned", SettingValue::Bool(true));
    assert!(settings.popup_pinned);
    settings.apply("notifyAttention", SettingValue::Text("no".to_string()));
    assert!(!settings.notify_attention);
    settings.apply("onboardingDone", SettingValue::Text("1".to_string()));
    assert!(settings.onboarding_done);
    assert!(settings.extra.is_empty());
}

#[test]
fn popup_pinned_defaults_off_and_persists() {
    assert!(!Settings::default().popup_pinned);

    let (updated, saved) = set_setting(None, "popupPinned", SettingValue::Bool(true));
    assert!(updated.popup_pinned);
    assert!(load(Some(&saved)).popup_pinned, "pin state survives a reload");
}

#[test]
fn apply_stores_unrecognized_keys_in_extra() {
    let mut settings = Settings::default();
    settings.apply("someNewSetting", SettingValue::Text("x".to_string()));
    assert_eq!(extra(&settings, "someNewSetting"), Some(&text("x")));
    settings.apply("someNewSetting", SettingValue::Bool(true));
    assert_eq!(extra(&settings, "someNewSetting"), Some(&Json::Bool(true)));
    assert_eq!(settings.extra.len(), 1);
}

#[test]
fn settings_without_a_field_have_their_defaults() {
    let mut settings = Settings::default();
    assert!(settings.takeover_permissions());
    assert!(settings.show_token_stats());
    assert!(!settings.mcp_enabled());
    assert_eq!(settings.popup_mode(), PopupMode::List);
    settings.apply("takeoverPermissions", SettingValue::Bool(false));
    settings.apply("showTokenStats", SettingValue::Bool(false));
    settings.apply("mcpEnabled", SettingValue::Bool(true));
    settings.apply("popupMode", SettingValue::Text(PopupMode::Lamp.as_str().to_string()));
    assert!(!settings.takeover_permissions());
    assert!(!settings.show_token_stats());
    assert!(settings.mcp_enabled());
    assert_eq!(settings.popup_mode(), PopupMode::Lamp);
    settings.apply("popupMode", SettingValue::Text("list".to_string()));
    assert_eq!(settings.popup_mode(), PopupMode::List);
}

#[test]
fn data_dir_helpers_nest_under_the_root() {
    let root = resolve_data_dir(Some("C:/qd-data".to_string()), platform());
    assert_eq!(PathBuf::from(&root), PathBuf::from("C:/qd-data"));
    assert_eq!(PathBuf::from(spool_dir(Platform::Other, &root)), PathBuf::from("C:/qd-data/spool"));
    assert_eq!(PathBuf::from(answers_dir(Platform::Other, &root)), PathBuf::from("C:/qd-data/answers"));
    assert_eq!(spool_quarantine_dir(Platform::Other, &root), "C:/qd-data/spool-quarantine");
    assert_eq!(asks_dir(Platform::Other, &root), "C:/qd-data/asks");
    assert_eq!(perms_dir(Platform::Other, &root), "C:/qd-data/perms");
    assert_eq!(perm_answers_dir(Platform::Other, &root), "C:/qd-data/perm-answers");
    assert_eq!(hooks_dir(Platform::Other, &root), "C:/qd-data/hooks");
    assert_eq!(logs_dir(Platform::Other, &root), "C:/qd-data/logs");
    assert_eq!(settings_path(Platform::Other, &root), "C:/qd-data/settings.json");
}

#[test]
fn only_a_leading_byte_order_mark_is_stripped() {
    assert_eq!(strip_bom("\u{feff}{}"), "{}");
    assert_eq!(strip_bom("{}\u{feff}"), "{}\u{feff}");
    assert_eq!(strip_bom(""), "");
}

#[test]
fn load_missing_file_returns_empty_map() {
    assert!(session_names::load(None).is_empty());
}

fn name_of<'a>(names: &'a [(String, String)], id: &str) -> Option<&'a str> {
    names.iter().find(|(k, _)| k == id).map(|(_, v)| v.as_str())
}

#[test]
fn session_names_save_then_load_roundtrips() {
    let names = vec![
        ("s1".to_string(), "My renamed session".to_string()),
        ("s2".to_string(), "\u{414}\u{440}\u{443}\u{433}\u{43e}\u{435} \u{438}\u{43c}\u{44f}".to_string()),
    ];
    let loaded = session_names::load(Some(&session_names::save(&names)));
    assert_eq!(loaded.len(), 2);
    for (id, name) in &names {
        assert_eq!(name_of(&loaded, id), Some(name.as_str()));
    }
}

#[test]
fn load_drops_non_string_and_blank_entries_but_keeps_the_rest() {
    let loaded = session_names::load(Some(r#"{"good":"Keep me","numeric":5,"blank":"   "}"#));
    assert_eq!(name_of(&loaded, "good"), Some("Keep me"));
    assert!(name_of(&loaded, "numeric").is_none());
    assert!(name_of(&loaded, "blank").is_none());
}

#[test]
fn load_tolerates_a_utf8_bom() {
    let mut bytes = vec![0xEF, 0xBB, 0xBF];
    bytes.extend_from_slice(br#"{"s1":"named"}"#);
    let loaded = session_names::load(Some(&String::from_utf8(bytes).unwrap()));
    assert_eq!(name_of(&loaded, "s1"), Some("named"));
}

#[test]
fn names_are_trimmed_and_a_blank_one_is_none() {
    assert_eq!(session_names::rename_session("  new "), Some("new".to_string()));
    assert_eq!(session_names::rename_session(" \t\u{a0}"), None);
    let loaded = session_names::load(Some(r#"{"s1":"  padded  "}"#));
    assert_eq!(name_of(&loaded, "s1"), Some("padded"));
    assert_eq!(session_names::session_names_path(Platform::Other, "/data"), "/data/session-names.json");
}
