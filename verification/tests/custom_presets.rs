use tiny4linux::{CustomPreset, CustomPresetStore, T4lError};

fn test_store() -> CustomPresetStore {
    CustomPresetStore::new()
}

fn test_preset(name: &str) -> CustomPreset {
    CustomPreset {
        name: name.to_string(),
        pan: 0,
        tilt: 0,
        zoom: 0,
    }
}

#[test]
fn load_missing_file_returns_empty() {
    let store = test_store();

    assert_eq!(store.load(), Vec::<CustomPreset>::new());
}

#[test]
fn save_and_load_roundtrip() {
    let mut store = test_store();
    let preset = test_preset("Desk");

    store.save(&preset);

    assert_eq!(store.load(), vec![preset]);
}

#[test]
fn save_overwrites_existing_preset() {
    let mut store = test_store();
    let mut preset = test_preset("Desk");
    store.save(&preset);

    preset.pan = 180_000;
    store.save(&preset);

    let presets = store.load();
    assert_eq!(presets.len(), 1);
    assert_eq!(presets[0], preset);
}

#[test]
fn delete_removes_preset() {
    let mut store = test_store();
    store.save(&test_preset("Desk"));
    store.save(&test_preset("Whiteboard"));

    store.delete("Desk").unwrap();

    let presets = store.load();
    assert_eq!(presets.len(), 1);
    assert_eq!(presets[0].name, "Whiteboard");
}

#[test]
fn delete_missing_preset_errors() {
    let mut store = test_store();

    assert!(
        store.delete("Missing").is_err(),
        "deleting a missing preset should error"
    );
}

#[test]
fn delete_missing_preset_names_it_and_keeps_store() {
    let mut store = test_store();
    store.save(&test_preset("Desk"));

    match store.delete("Missing") {
        Err(T4lError::PresetNotFound(name)) => assert_eq!(name, "Missing"),
        other => panic!("unexpected result {:?}", other),
    }
    assert_eq!(store.load(), vec![test_preset("Desk")]);
}

#[test]
fn save_appends_new_names_in_order() {
    let mut store = test_store();
    store.save(&test_preset("A"));
    store.save(&test_preset("B"));
    store.save(&test_preset("C"));

    let names: Vec<String> = store.load().into_iter().map(|p| p.name).collect();
    assert_eq!(names, vec!["A", "B", "C"]);
}

#[test]
fn save_replaces_in_place() {
    let mut store = test_store();
    store.save(&test_preset("A"));
    store.save(&test_preset("B"));
    store.save(&CustomPreset { name: "A".to_string(), pan: 5, tilt: -6, zoom: 7 });

    let presets = store.load();
    assert_eq!(presets.len(), 2);
    assert_eq!(presets[0], CustomPreset { name: "A".to_string(), pan: 5, tilt: -6, zoom: 7 });
    assert_eq!(presets[1].name, "B");
}

#[test]
fn duplicates_from_a_file_first_one_wins() {
    let mut store = CustomPresetStore::from_presets(vec![
        CustomPreset { name: "A".to_string(), pan: 1, tilt: 1, zoom: 1 },
        CustomPreset { name: "A".to_string(), pan: 2, tilt: 2, zoom: 2 },
    ]);
    assert_eq!(store.find("A").unwrap().pan, 1);
    assert_eq!(store.position("A"), Some(0));

    store.delete("A").unwrap();
    assert_eq!(store.find("A").unwrap().pan, 2);
    store.save(&CustomPreset { name: "A".to_string(), pan: 3, tilt: 3, zoom: 3 });
    assert_eq!(store.len(), 1);
    assert_eq!(store.find("A").unwrap().pan, 3);
}

#[test]
fn delete_after_saving_a_new_name_restores_store() {
    let mut store = test_store();
    store.save(&test_preset("Desk"));
    let before = store.load();

    store.save(&test_preset("Door"));
    store.delete("Door").unwrap();

    assert_eq!(store.load(), before);
}

#[test]
fn names_are_case_sensitive() {
    let mut store = test_store();
    store.save(&test_preset("Desk"));

    assert!(store.find("desk").is_none());
    assert!(store.delete("DESK").is_err());
    assert_eq!(store.len(), 1);
}

#[test]
fn preset_new_and_duplicate_copy_fields() {
    let p = CustomPreset::new("Stage", -648000, 324000, 100);
    assert_eq!(p, CustomPreset { name: "Stage".to_string(), pan: -648000, tilt: 324000, zoom: 100 });
    assert_eq!(p.duplicate(), p);
}
