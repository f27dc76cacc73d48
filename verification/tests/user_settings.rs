use asr_capi::settings::{SettingValue, SettingsStore};
use asr_capi::user_settings::{ChoiceOption, UserSettings, Widget, WidgetKind};

fn bool_widget(key: &str, default_value: bool) -> Widget {
    Widget {
        key: String::from(key),
        description: String::from("a switch"),
        tooltip: None,
        kind: WidgetKind::Bool { default_value },
    }
}

fn choice_widget(key: &str, default_option_key: &str, option_keys: &[&str]) -> Widget {
    let options = option_keys
        .iter()
        .map(|k| ChoiceOption {
            key: String::from(*k),
            description: format!("option {k}"),
        })
        .collect();
    Widget {
        key: String::from(key),
        description: String::from("a choice"),
        tooltip: Some(String::from("pick one")),
        kind: WidgetKind::Choice {
            default_option_key: String::from(default_option_key),
            options,
        },
    }
}

#[test]
fn schema_reports_len_and_texts() {
    let schema = UserSettings::new(vec![
        bool_widget("enabled", true),
        choice_widget("mode", "k1", &["k1", "k2"]),
    ]);
    assert_eq!(schema.len(), 2);
    assert_eq!(schema.get_key(0), "enabled");
    assert_eq!(schema.get_description(0), "a switch");
    assert_eq!(schema.get_tooltip(0), "");
    assert_eq!(schema.get_key(1), "mode");
    assert_eq!(schema.get_tooltip(1), "pick one");
}

#[test]
fn kind_tags_number_the_variants() {
    let schema = UserSettings::new(vec![
        bool_widget("b", false),
        Widget {
            key: String::from("t"),
            description: String::from("section"),
            tooltip: None,
            kind: WidgetKind::Title { heading_level: 2 },
        },
        choice_widget("c", "k1", &["k1"]),
        Widget {
            key: String::from("f"),
            description: String::from("rom"),
            tooltip: None,
            kind: WidgetKind::FileSelection { filter: String::from("*.sfc") },
        },
    ]);
    assert_eq!(schema.get_type(0), 1);
    assert_eq!(schema.get_type(1), 2);
    assert_eq!(schema.get_type(2), 3);
    assert_eq!(schema.get_type(3), 4);
    assert_eq!(schema.get_heading_level(1), 2);
    assert_eq!(schema.get_fileselection_filter(3), "*.sfc");
}

#[test]
fn mismatched_kind_accessors_yield_defaults() {
    let schema = UserSettings::new(vec![bool_widget("b", true), choice_widget(
        "c",
        "k1",
        &["k1", "k2"],
    )]);
    let map = SettingsStore::new().into_map();
    // A non-title widget sits at depth zero, a non-file widget has no filter,
    // a non-choice widget has no options, a non-bool widget resolves false.
    assert_eq!(schema.get_heading_level(0), 0);
    assert_eq!(schema.get_fileselection_filter(0), "");
    assert_eq!(schema.get_choice_options_len(0), 0);
    assert_eq!(schema.get_choice_option_key(0, 0), "");
    assert_eq!(schema.get_choice_option_description(0, 0), "");
    assert_eq!(schema.get_choice_current_index(0, &map), 0);
    assert!(!schema.get_bool(1, &map));
}

#[test]
fn bool_resolution_prefers_stored_matching_variant() {
    let schema = UserSettings::new(vec![bool_widget("enabled", true)]);

    let empty = SettingsStore::new().into_map();
    assert!(schema.get_bool(0, &empty));

    let mut store = SettingsStore::new();
    store.set_bool("enabled", false);
    let stored_false = store.into_map();
    assert!(!schema.get_bool(0, &stored_false));

    let mut store = SettingsStore::new();
    store.set(
        String::from("enabled"),
        SettingValue::String(String::from("yes")),
    );
    let wrong_variant = store.into_map();
    // A stored value of the wrong variant counts as absent, not as an error.
    assert!(schema.get_bool(0, &wrong_variant));
}

#[test]
fn choice_resolution_falls_back_stored_then_default_then_first() {
    let schema = UserSettings::new(vec![choice_widget("mode", "k1", &["k1", "k2"])]);

    let empty = SettingsStore::new().into_map();
    assert_eq!(schema.get_choice_current_index(0, &empty), 0);

    let mut store = SettingsStore::new();
    store.set(String::from("mode"), SettingValue::String(String::from("k2")));
    let stored_known = store.into_map();
    assert_eq!(schema.get_choice_current_index(0, &stored_known), 1);

    let mut store = SettingsStore::new();
    store.set(String::from("mode"), SettingValue::String(String::from("k3")));
    let stored_unknown = store.into_map();
    // "k3" names no option: fall back to the default key "k1".
    assert_eq!(schema.get_choice_current_index(0, &stored_unknown), 0);
}

#[test]
fn choice_resolution_with_inconsistent_default_yields_first() {
    // Even the declared default names no option: index zero.
    let schema = UserSettings::new(vec![choice_widget("mode", "gone", &["k1", "k2"])]);
    let empty = SettingsStore::new().into_map();
    assert_eq!(schema.get_choice_current_index(0, &empty), 0);

    let mut store = SettingsStore::new();
    store.set(String::from("mode"), SettingValue::String(String::from("k2")));
    let stored_known = store.into_map();
    // A stored option key still wins over the inconsistent default.
    assert_eq!(schema.get_choice_current_index(0, &stored_known), 1);
}

#[test]
fn choice_options_index_by_position() {
    let schema = UserSettings::new(vec![choice_widget("mode", "slow", &["fast", "slow"])]);
    assert_eq!(schema.get_choice_options_len(0), 2);
    assert_eq!(schema.get_choice_option_key(0, 0), "fast");
    assert_eq!(schema.get_choice_option_key(0, 1), "slow");
    assert_eq!(schema.get_choice_option_description(0, 0), "option fast");
    assert_eq!(schema.get_choice_option_description(0, 1), "option slow");
}

#[test]
fn end_to_end_schema_resolution() {
    // A script declaring one boolean widget and one choice widget.
    let schema = UserSettings::new(vec![
        bool_widget("enabled", false),
        choice_widget("mode", "slow", &["fast", "slow"]),
    ]);

    let empty = SettingsStore::new().into_map();
    assert!(!schema.get_bool(0, &empty));
    assert_eq!(schema.get_choice_current_index(1, &empty), 1);

    let mut store = SettingsStore::new();
    store.set_bool("enabled", true);
    let map = store.into_map();
    assert!(schema.get_bool(0, &map));
    assert_eq!(schema.get_choice_current_index(1, &map), 1);
}
