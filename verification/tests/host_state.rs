use trayd::host::HostState;
use trayd::model::{IconData, ItemId, TrayItem, TrayStatus};

/// Build a dummy `TrayItem` for use in unit tests (no D-Bus required).
fn dummy_item(id: &str) -> TrayItem {
    TrayItem {
        id: ItemId(id.to_owned()),
        bus_name: format!("org.example.{id}"),
        object_path: "/StatusNotifierItem".to_owned(),
        title: id.to_owned(),
        status: TrayStatus::Active,
        icon: IconData::default(),
        attention_icon: IconData::default(),
        menu_path: String::new(),
    }
}

#[test]
fn host_state_insert_and_retrieve() {
    let mut state = HostState::new();
    let item = dummy_item("App");
    state.insert_item(item.clone());

    let retrieved = state.item(&item.id).unwrap();
    assert_eq!(retrieved.title, "App");
}

#[test]
fn host_state_remove_item() {
    let mut state = HostState::new();
    let item = dummy_item("App");
    let id = item.id.clone();
    state.insert_item(item);
    assert!(state.contains_item(&id));

    state.remove_item(&id);
    assert!(!state.contains_item(&id));
}

#[test]
fn host_state_multiple_items() {
    let mut state = HostState::new();
    for name in ["Alpha", "Beta", "Gamma"] {
        let item = dummy_item(name);
        state.insert_item(item);
    }
    assert_eq!(state.len(), 3);
}
