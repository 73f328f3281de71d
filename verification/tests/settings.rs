use lattice_settings::settings::{
    clear_default_folder, get_default_folder, get_last_opened_folder, set_default_folder,
    set_last_opened_folder, snapshot, AppSettings,
};
use lattice_settings::store::{SettingKey, Store, StoreValue};

#[test]
fn set_then_get_default_folder() {
    let mut store = Store::new();
    set_default_folder(&mut store, "/home/user/docs".to_string());
    assert_eq!(get_default_folder(&store), Some("/home/user/docs".to_string()));
}

#[test]
fn set_then_get_last_opened_folder() {
    let mut store = Store::new();
    set_last_opened_folder(&mut store, "/tmp".to_string());
    assert_eq!(get_last_opened_folder(&store), Some("/tmp".to_string()));
}

#[test]
fn set_then_get_empty_string_is_stored_verbatim() {
    let mut store = Store::new();
    set_default_folder(&mut store, String::new());
    assert_eq!(get_default_folder(&store), Some(String::new()));
}

#[test]
fn set_twice_keeps_the_last_value() {
    let mut store = Store::new();
    set_default_folder(&mut store, "/first".to_string());
    set_default_folder(&mut store, "/second".to_string());
    assert_eq!(get_default_folder(&store), Some("/second".to_string()));
}

#[test]
fn clear_after_set_yields_none() {
    let mut store = Store::new();
    set_default_folder(&mut store, "/home/user/docs".to_string());
    clear_default_folder(&mut store);
    assert_eq!(get_default_folder(&store), None);
}

#[test]
fn clear_on_a_never_set_key_yields_none() {
    let mut store = Store::new();
    clear_default_folder(&mut store);
    assert_eq!(get_default_folder(&store), None);
}

#[test]
fn fresh_store_has_no_default_folder() {
    let store = Store::new();
    assert_eq!(get_default_folder(&store), None);
}

#[test]
fn fresh_store_has_no_last_opened_folder() {
    let store = Store::new();
    assert_eq!(get_last_opened_folder(&store), None);
}

#[test]
fn setting_last_opened_leaves_default_alone() {
    let mut store = Store::new();
    set_default_folder(&mut store, "/default".to_string());
    set_last_opened_folder(&mut store, "/recent".to_string());
    assert_eq!(get_default_folder(&store), Some("/default".to_string()));
    assert_eq!(get_last_opened_folder(&store), Some("/recent".to_string()));
}

#[test]
fn setting_default_leaves_last_opened_alone() {
    let mut store = Store::new();
    set_last_opened_folder(&mut store, "/recent".to_string());
    set_default_folder(&mut store, "/default".to_string());
    assert_eq!(get_last_opened_folder(&store), Some("/recent".to_string()));
    assert_eq!(get_default_folder(&store), Some("/default".to_string()));
}

#[test]
fn clearing_default_leaves_last_opened_alone() {
    let mut store = Store::new();
    set_last_opened_folder(&mut store, "/recent".to_string());
    clear_default_folder(&mut store);
    assert_eq!(get_last_opened_folder(&store), Some("/recent".to_string()));
}

#[test]
fn full_session_scenario() {
    let mut store = Store::new();
    set_default_folder(&mut store, "/home/user/docs".to_string());
    assert_eq!(get_default_folder(&store), Some("/home/user/docs".to_string()));
    clear_default_folder(&mut store);
    assert_eq!(get_default_folder(&store), None);
    set_last_opened_folder(&mut store, "/tmp".to_string());
    assert_eq!(get_last_opened_folder(&store), Some("/tmp".to_string()));
    assert_eq!(get_default_folder(&store), None);
}

#[test]
fn a_non_string_value_degrades_to_absent() {
    let mut store = Store::new();
    store.set_value(SettingKey::DefaultFolder, StoreValue::Other);
    assert_eq!(get_default_folder(&store), None);
    assert!(matches!(
        store.get_value(SettingKey::DefaultFolder),
        Some(StoreValue::Other)
    ));
}

#[test]
fn a_set_replaces_a_non_string_value() {
    let mut store = Store::new();
    store.set_value(SettingKey::LastOpenedFolder, StoreValue::Other);
    set_last_opened_folder(&mut store, "/tmp".to_string());
    assert_eq!(get_last_opened_folder(&store), Some("/tmp".to_string()));
}

#[test]
fn get_value_reads_back_the_stored_text() {
    let mut store = Store::new();
    store.set_value(
        SettingKey::DefaultFolder,
        StoreValue::Text("/home".to_string()),
    );
    match store.get_value(SettingKey::DefaultFolder) {
        Some(StoreValue::Text(s)) => assert_eq!(s, "/home"),
        other => panic!("expected the stored text, found {:?}", other),
    }
    assert!(store.get_value(SettingKey::LastOpenedFolder).is_none());
}

#[test]
fn file_keys_match_the_persisted_document() {
    assert_eq!(SettingKey::DefaultFolder.file_key(), "default_folder");
    assert_eq!(SettingKey::LastOpenedFolder.file_key(), "last_opened_folder");
}

#[test]
fn snapshot_reads_both_fields() {
    let mut store = Store::new();
    set_default_folder(&mut store, "/default".to_string());
    set_last_opened_folder(&mut store, "/recent".to_string());
    let settings = snapshot(&store);
    assert_eq!(settings.default_folder, Some("/default".to_string()));
    assert_eq!(settings.last_opened_folder, Some("/recent".to_string()));
}

#[test]
fn snapshot_of_a_fresh_store_is_the_default_record() {
    let store = Store::new();
    let settings = snapshot(&store);
    let default_record = AppSettings::default();
    assert_eq!(settings.default_folder, default_record.default_folder);
    assert_eq!(settings.last_opened_folder, default_record.last_opened_folder);
}
