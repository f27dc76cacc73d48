use asr_capi::settings::{SettingValue, SettingsStore};

#[test]
fn store_round_trips_through_the_map() {
    let mut store = SettingsStore::new();
    store.set_bool("x", true);
    let map = store.into_map();
    assert_eq!(map.get("x"), Some(&SettingValue::Bool(true)));
    assert_eq!(map.get("y"), None);
}

#[test]
fn set_overwrites_in_place() {
    let mut store = SettingsStore::new();
    store.set_bool("x", true);
    store.set_bool("x", false);
    let map = store.into_map();
    assert_eq!(map.len(), 1);
    assert_eq!(map.get("x"), Some(&SettingValue::Bool(false)));
}

#[test]
fn set_keeps_other_keys() {
    let mut store = SettingsStore::new();
    store.set_bool("a", true);
    store.set(String::from("b"), SettingValue::String(String::from("fast")));
    store.set_bool("a", false);
    let map = store.into_map();
    assert_eq!(map.len(), 2);
    assert_eq!(map.get("a"), Some(&SettingValue::Bool(false)));
    assert_eq!(
        map.get("b"),
        Some(&SettingValue::String(String::from("fast")))
    );
}

#[test]
fn empty_store_converts_to_empty_map() {
    let store = SettingsStore::new();
    let map = store.into_map();
    assert_eq!(map.len(), 0);
    assert_eq!(map.get(""), None);
}
