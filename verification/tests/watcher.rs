use trayd::model::ItemId;
use trayd::watcher::{WatcherMsg, WatcherState, parse_service};

#[test]
fn parse_service_plain_bus_name() {
    let (bus, path) = parse_service(":1.5", "com.example.App");
    assert_eq!(bus, "com.example.App");
    assert_eq!(path, "/StatusNotifierItem");
}

#[test]
fn parse_service_path_only_uses_sender() {
    let (bus, path) = parse_service(":1.5", "/StatusNotifierItem");
    assert_eq!(bus, ":1.5");
    assert_eq!(path, "/StatusNotifierItem");
}

#[test]
fn parse_service_combined_form() {
    let (bus, path) = parse_service(":1.5", "com.example.App/SomePath");
    assert_eq!(bus, "com.example.App");
    assert_eq!(path, "/SomePath");
}

#[test]
fn register_item_announces_once() {
    let mut w = WatcherState::new();
    let first = w.register_item(":1.7", "org.example.App");
    match first {
        Some(WatcherMsg::ItemRegistered { service_id, bus_name, object_path }) => {
            assert_eq!(service_id, "org.example.App");
            assert_eq!(bus_name, "org.example.App");
            assert_eq!(object_path, "/StatusNotifierItem");
        }
        None => panic!("first registration must be announced"),
    }
    assert!(w.register_item(":1.7", "org.example.App").is_none());
    assert_eq!(w.registered_items(), vec!["org.example.App".to_owned()]);
}

#[test]
fn register_path_only_item_is_keyed_by_sender_and_path() {
    let mut w = WatcherState::new();
    match w.register_item(":1.42", "/org/ayatana/NotificationItem/app") {
        Some(WatcherMsg::ItemRegistered { service_id, bus_name, object_path }) => {
            assert_eq!(service_id, ":1.42/org/ayatana/NotificationItem/app");
            assert_eq!(bus_name, ":1.42");
            assert_eq!(object_path, "/org/ayatana/NotificationItem/app");
        }
        None => panic!("expected a registration"),
    }
}

#[test]
fn register_host_uses_sender_for_empty_service() {
    let mut w = WatcherState::new();
    w.register_host(":1.9", "");
    w.register_host(":1.9", "");
    w.register_host("", "");
    w.register_host(":1.3", "org.kde.StatusNotifierHost-1");
    assert_eq!(
        w.registered_hosts(),
        vec![":1.9".to_owned(), "org.kde.StatusNotifierHost-1".to_owned()]
    );
}

#[test]
fn unregister_then_register_announces_again() {
    let mut w = WatcherState::new();
    w.register_item(":1.1", "a.App");
    w.register_item(":1.2", "b.App");
    w.register_item(":1.3", "c.App");
    w.unregister_items(&vec![ItemId("b.App".to_owned()), ItemId("x.App".to_owned())]);
    assert_eq!(w.registered_items(), vec!["a.App".to_owned(), "c.App".to_owned()]);
    assert!(w.register_item(":1.2", "b.App").is_some());
}
