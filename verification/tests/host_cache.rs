use trayd::error::TraydError;
use trayd::host::{
    ActivationTarget, HostState, ItemProperties, changed_icon, is_unique_bus_name,
    resolve_icon_name,
};
use trayd::model::{HostEvent, IconData, IconPixmap, ItemId, TrayItem, TrayStatus};

fn pixmap(width: i32, tag: u8) -> IconPixmap {
    IconPixmap { width, height: width, data: vec![tag; 4] }
}

fn item(id: &str, bus: &str, pixmaps: Vec<IconPixmap>) -> TrayItem {
    TrayItem {
        id: ItemId(id.to_owned()),
        bus_name: bus.to_owned(),
        object_path: "/StatusNotifierItem".to_owned(),
        title: id.to_owned(),
        status: TrayStatus::Active,
        icon: IconData { name: String::new(), pixmaps },
        attention_icon: IconData::default(),
        menu_path: "/MenuBar".to_owned(),
    }
}

fn not_found_message(r: Result<impl std::fmt::Debug, TraydError>) -> String {
    match r {
        Err(TraydError::NotFound(m)) => m,
        other => panic!("expected NotFound, got {other:?}"),
    }
}

#[test]
fn get_pixmap_picks_nearest_width() {
    let mut s = HostState::new();
    s.insert_item(item("a", ":1.1", vec![pixmap(16, 1), pixmap(24, 2), pixmap(48, 3)]));
    let p = s.get_pixmap(&ItemId("a".into()), 22).unwrap();
    assert_eq!((p.width, p.height, p.data.clone()), (24, 24, vec![2; 4]));
    let p = s.get_pixmap(&ItemId("a".into()), 40).unwrap();
    assert_eq!(p.width, 48);
}

#[test]
fn get_pixmap_ties_prefer_the_larger() {
    let mut s = HostState::new();
    s.insert_item(item("a", ":1.1", vec![pixmap(20, 1), pixmap(24, 2)]));
    let p = s.get_pixmap(&ItemId("a".into()), 22).unwrap();
    assert_eq!((p.width, p.data), (24, vec![2; 4]));
    s.insert_item(item("b", ":1.1", vec![pixmap(24, 3), pixmap(20, 4)]));
    let p = s.get_pixmap(&ItemId("b".into()), 22).unwrap();
    assert_eq!((p.width, p.data), (24, vec![3; 4]));
}

#[test]
fn get_pixmap_prefers_an_exact_match() {
    let mut s = HostState::new();
    s.insert_item(item("a", ":1.1", vec![pixmap(24, 1), pixmap(22, 2), pixmap(20, 3)]));
    assert_eq!(s.get_pixmap(&ItemId("a".into()), 22).unwrap().data, vec![2; 4]);
}

#[test]
fn get_pixmap_equal_widths_go_to_the_first() {
    let mut s = HostState::new();
    s.insert_item(item("a", ":1.1", vec![pixmap(16, 1), pixmap(32, 2), pixmap(32, 3)]));
    assert_eq!(s.get_pixmap(&ItemId("a".into()), 30).unwrap().data, vec![2; 4]);
}

#[test]
fn get_pixmap_is_stable_on_repeat() {
    let mut s = HostState::new();
    s.insert_item(item("a", ":1.1", vec![pixmap(16, 1), pixmap(32, 2)]));
    let first = s.get_pixmap(&ItemId("a".into()), 30).unwrap();
    let second = s.get_pixmap(&ItemId("a".into()), 30).unwrap();
    assert_eq!((first.width, first.data.clone()), (second.width, second.data.clone()));
}

#[test]
fn get_pixmap_serves_attention_icon_when_needed() {
    let mut s = HostState::new();
    let mut it = item("a", ":1.1", vec![pixmap(22, 1)]);
    it.status = TrayStatus::NeedsAttention;
    it.attention_icon = IconData { name: String::new(), pixmaps: vec![pixmap(22, 9)] };
    s.insert_item(it);
    assert_eq!(s.get_pixmap(&ItemId("a".into()), 22).unwrap().data, vec![9; 4]);
    s.set_status(&ItemId("a".into()), TrayStatus::Active);
    assert_eq!(s.get_pixmap(&ItemId("a".into()), 22).unwrap().data, vec![1; 4]);
}

#[test]
fn get_pixmap_errors() {
    let mut s = HostState::new();
    assert_eq!(not_found_message(s.get_pixmap(&ItemId("ghost".into()), 22)), "ghost");
    s.insert_item(item("bare", ":1.1", vec![]));
    assert_eq!(
        not_found_message(s.get_pixmap(&ItemId("bare".into()), 22)),
        "no pixmap for bare"
    );
}

#[test]
fn icon_change_is_served_after_memoised_lookup() {
    let mut s = HostState::new();
    s.insert_item(item("a", ":1.1", vec![pixmap(22, 1)]));
    assert_eq!(s.get_pixmap(&ItemId("a".into()), 22).unwrap().data, vec![1; 4]);
    let event = s.set_icon(
        &ItemId("a".into()),
        false,
        IconData { name: "new".into(), pixmaps: vec![pixmap(22, 7)] },
    );
    assert!(matches!(event, Some(HostEvent::ItemChanged(ref t)) if t.icon.name == "new"));
    assert_eq!(s.get_pixmap(&ItemId("a".into()), 22).unwrap().data, vec![7; 4]);
}

#[test]
fn updates_of_unknown_items_change_nothing() {
    let mut s = HostState::new();
    assert!(s.set_title(&ItemId("x".into()), "t".into()).is_none());
    assert!(s.set_status(&ItemId("x".into()), TrayStatus::Active).is_none());
    assert_eq!(s.len(), 0);
}

#[test]
fn set_title_reports_the_changed_item() {
    let mut s = HostState::new();
    s.insert_item(item("a", ":1.1", vec![]));
    match s.set_title(&ItemId("a".into()), "Network".into()) {
        Some(HostEvent::ItemChanged(t)) => assert_eq!(t.title, "Network"),
        other => panic!("expected ItemChanged, got {other:?}"),
    }
    assert_eq!(s.item(&ItemId("a".into())).unwrap().title, "Network");
}

#[test]
fn insert_replaces_same_id_and_reports_added() {
    let mut s = HostState::new();
    s.insert_item(item("a", ":1.1", vec![]));
    let mut again = item("a", ":1.2", vec![]);
    again.title = "second".into();
    let event = s.insert_item(again);
    assert!(matches!(event, HostEvent::ItemAdded(ref t) if t.title == "second"));
    assert_eq!(s.len(), 1);
    assert_eq!(s.item(&ItemId("a".into())).unwrap().bus_name, ":1.2");
}

#[test]
fn removing_a_bus_drops_its_items_only() {
    let mut s = HostState::new();
    s.insert_item(item("a", ":1.1", vec![pixmap(22, 1)]));
    s.insert_item(item("b", ":1.2", vec![]));
    s.insert_item(item("c", ":1.1", vec![]));
    s.get_pixmap(&ItemId("a".into()), 22).unwrap();
    let removed = s.remove_items_of_bus(":1.1");
    let mut names: Vec<String> = removed.into_iter().map(|i| i.0).collect();
    names.sort();
    assert_eq!(names, vec!["a".to_owned(), "c".to_owned()]);
    assert_eq!(s.len(), 1);
    assert!(s.contains_item(&ItemId("b".into())));
    assert!(s.remove_items_of_bus(":1.9").is_empty());
    let all = s.items();
    assert_eq!(all.len(), 1);
    assert_eq!(all[0].id.0, "b");
}

#[test]
fn activation_targets() {
    let mut s = HostState::new();
    s.insert_item(item("a", ":1.1", vec![]));
    let mut no_menu = item("b", ":1.2", vec![]);
    no_menu.menu_path = "/".into();
    s.insert_item(no_menu);

    match s.activation_target(&ItemId("a".into()), 0).unwrap() {
        ActivationTarget::Primary { bus_name, object_path } => {
            assert_eq!((bus_name.as_str(), object_path.as_str()), (":1.1", "/StatusNotifierItem"));
        }
        other => panic!("expected Primary, got {other:?}"),
    }
    match s.activation_target(&ItemId("a".into()), 5).unwrap() {
        ActivationTarget::MenuClick { bus_name, menu_path, menu_item } => {
            assert_eq!((bus_name.as_str(), menu_path.as_str(), menu_item), (":1.1", "/MenuBar", 5));
        }
        other => panic!("expected MenuClick, got {other:?}"),
    }
    assert_eq!(not_found_message(s.activation_target(&ItemId("b".into()), 5)), "b has no menu");
    assert!(matches!(s.activation_target(&ItemId("b".into()), 0), Ok(ActivationTarget::Primary { .. })));
    assert_eq!(not_found_message(s.activation_target(&ItemId("z".into()), 0)), "z");
}

#[test]
fn menu_targets() {
    let mut s = HostState::new();
    s.insert_item(item("a", ":1.1", vec![]));
    let top = s.menu_target(&ItemId("a".into()), None).unwrap();
    assert_eq!((top.bus_name.as_str(), top.menu_path.as_str(), top.parent_id), (":1.1", "/MenuBar", 0));
    assert_eq!(s.menu_target(&ItemId("a".into()), Some(7)).unwrap().parent_id, 7);
    let mut empty_menu = item("e", ":1.3", vec![]);
    empty_menu.menu_path = String::new();
    s.insert_item(empty_menu);
    assert_eq!(not_found_message(s.menu_target(&ItemId("e".into()), None)), "e has no menu");
}

#[test]
fn icon_name_priority() {
    assert_eq!(resolve_icon_name("nm".into(), Some("org.x"), "X".into()), "nm");
    assert_eq!(resolve_icon_name(String::new(), Some("org.telegram.desktop"), "TelegramDesktop".into()), "org.telegram.desktop");
    assert_eq!(resolve_icon_name(String::new(), Some(""), "TelegramDesktop".into()), "TelegramDesktop");
    assert_eq!(resolve_icon_name(String::new(), None, "TelegramDesktop".into()), "TelegramDesktop");
}

#[test]
fn item_from_properties_builds_the_cached_item() {
    let props = ItemProperties {
        title: "Telegram".into(),
        status: "NeedsAttention".into(),
        icon_name: String::new(),
        id: "TelegramDesktop".into(),
        icon_pixmap: vec![pixmap(16, 1)],
        attention_icon_name: "tg-attn".into(),
        attention_icon_pixmap: vec![],
        menu_path: "/MenuBar".into(),
    };
    let t = TrayItem::from_properties(":1.9/StatusNotifierItem", ":1.9", "/StatusNotifierItem", Some("org.telegram.desktop"), props);
    assert_eq!(t.id.0, ":1.9/StatusNotifierItem");
    assert_eq!(t.status, TrayStatus::NeedsAttention);
    assert_eq!(t.icon.name, "org.telegram.desktop");
    assert_eq!(t.icon.pixmaps.len(), 1);
    assert_eq!(t.attention_icon.name, "tg-attn");
    assert_eq!(t.menu_path, "/MenuBar");
}

#[test]
fn changed_icon_resolves_only_the_normal_name() {
    let normal = changed_icon(false, String::new(), Some("org.x"), "X".into(), vec![]);
    assert_eq!(normal.name, "org.x");
    let attention = changed_icon(true, String::new(), Some("org.x"), "X".into(), vec![]);
    assert_eq!(attention.name, "");
}

#[test]
fn unique_bus_names() {
    assert!(is_unique_bus_name(":1.201"));
    assert!(!is_unique_bus_name("org.telegram.desktop"));
    assert!(!is_unique_bus_name(""));
}

#[test]
fn re_registering_an_id_keeps_memoised_pixmaps() {
    let mut s = HostState::new();
    s.insert_item(item("a", ":1.1", vec![pixmap(22, 1)]));
    assert_eq!(s.get_pixmap(&ItemId("a".into()), 22).unwrap().data, vec![1; 4]);
    s.insert_item(item("a", ":1.2", vec![pixmap(22, 7)]));
    assert_eq!(s.get_pixmap(&ItemId("a".into()), 22).unwrap().data, vec![1; 4]);
    assert_eq!(s.get_pixmap(&ItemId("a".into()), 24).unwrap().data, vec![7; 4]);
}
