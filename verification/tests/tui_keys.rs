use trayd::app::{
    highlighted_row, item_row_label, menu_row_label, menu_title, Action, App, Key, KeyOutcome, KeyPress, View,
};
use trayd::ipc::{MenuItem, MinimalTrayItem};

fn tray_item(app_id: &str, title: Option<&str>) -> MinimalTrayItem {
    MinimalTrayItem {
        app_id: app_id.to_owned(),
        title: title.map(|t| t.to_owned()),
        status: "Active".to_owned(),
        icon_handle: None,
    }
}

fn row(item_id: u32, label: &str, is_submenu: bool) -> MenuItem {
    MenuItem { item_id, label: label.to_owned(), is_submenu }
}

fn press(key: Key) -> KeyPress {
    KeyPress { key, ctrl: false }
}

#[test]
fn quit_keys() {
    let mut app = App::new("".into(), vec![]);
    assert_eq!(app.handle_key(press(Key::Char('q'))), KeyOutcome::Quit);
    assert_eq!(app.handle_key(KeyPress { key: Key::Char('c'), ctrl: true }), KeyOutcome::Quit);
    assert_eq!(app.handle_key(press(Key::Char('c'))), KeyOutcome::Continue);
}

#[test]
fn navigation_keys_move_the_highlight_and_clear_the_status() {
    let mut app = App::new("".into(), vec![tray_item("a", None), tray_item("b", None)]);
    app.select_failed("boom");
    assert_eq!(app.status_msg.as_deref(), Some("Error: boom"));
    assert_eq!(app.handle_key(press(Key::Char('j'))), KeyOutcome::Continue);
    assert_eq!(app.items_cursor, 1);
    assert_eq!(app.status_msg, None);
    assert_eq!(app.handle_key(press(Key::Down)), KeyOutcome::Continue);
    assert_eq!(app.items_cursor, 1);
    assert_eq!(app.handle_key(press(Key::Up)), KeyOutcome::Continue);
    assert_eq!(app.items_cursor, 0);
    assert_eq!(app.handle_key(press(Key::Char('k'))), KeyOutcome::Continue);
    assert_eq!(app.items_cursor, 0);
    assert_eq!(app.handle_key(press(Key::Other)), KeyOutcome::Continue);
}

#[test]
fn enter_and_space_select() {
    let mut app = App::new("".into(), vec![tray_item("a", None)]);
    assert_eq!(app.handle_key(press(Key::Enter)), KeyOutcome::Select);
    assert_eq!(app.handle_key(press(Key::Char(' '))), KeyOutcome::Select);
}

#[test]
fn open_menu_then_submenu_then_escape_back() {
    let mut app = App::new("".into(), vec![tray_item("nm", None)]);
    match app.compute_action() {
        Action::OpenMenu(id) => assert_eq!(id, "nm"),
        other => panic!("unexpected {other:?}"),
    }
    app.open_menu("nm".to_owned(), vec![row(1, "Wi-Fi", true), row(2, "Quit", false)]);
    match &app.view {
        View::Menu { app_id, stack } => {
            assert_eq!(app_id, "nm");
            assert_eq!(stack.len(), 1);
            assert_eq!(stack[0].cursor, 0);
            assert_eq!(stack[0].submenu_id, None);
        }
        View::Items => panic!("expected a menu"),
    }
    app.open_submenu(1, vec![row(5, "Home", false)]);
    match app.compute_action() {
        Action::Activate { app_id, item_id } => {
            assert_eq!(app_id, "nm");
            assert_eq!(item_id, 5);
        }
        other => panic!("unexpected {other:?}"),
    }
    assert_eq!(app.handle_key(press(Key::Esc)), KeyOutcome::Continue);
    match &app.view {
        View::Menu { stack, .. } => assert_eq!(stack.len(), 1),
        View::Items => panic!("expected a menu"),
    }
    app.activated();
    assert!(matches!(app.view, View::Items));
}

#[test]
fn open_submenu_outside_a_menu_changes_nothing() {
    let mut app = App::new("".into(), vec![]);
    app.open_submenu(1, vec![row(5, "Home", false)]);
    assert!(matches!(app.view, View::Items));
}

#[test]
fn tray_update_keeps_an_in_range_highlight() {
    let mut app = App::new("".into(), vec![tray_item("a", None), tray_item("b", None)]);
    app.items_cursor = 1;
    app.apply_tray_update(vec![tray_item("a", None), tray_item("b", None), tray_item("c", None)]);
    assert_eq!(app.items_cursor, 1);
    assert_eq!(app.tray_items.len(), 3);
    app.apply_tray_update(vec![]);
    assert_eq!(app.items_cursor, 0);
}

#[test]
fn row_labels_and_titles() {
    assert_eq!(item_row_label(&tray_item("nm-applet", Some("Network"))), "Network  [Active]");
    assert_eq!(item_row_label(&tray_item("nm-applet", None)), "nm-applet  [Active]");
    assert_eq!(menu_row_label(&row(1, "Wi-Fi", true)), "Wi-Fi \u{25b6}");
    assert_eq!(menu_row_label(&row(2, "", false)), "\u{2014}");
    assert_eq!(menu_row_label(&row(3, "Quit", false)), "Quit");
    assert_eq!(menu_title("nm", 1), " nm ");
    assert_eq!(menu_title("nm", 2), " nm > (submenu) ");
    assert_eq!(highlighted_row(0, 0), None);
    assert_eq!(highlighted_row(3, 2), Some(2));
}

#[test]
fn status_line_shows_errors_or_hints() {
    let mut app = App::new("".into(), vec![]);
    assert_eq!(app.status_line(), (" j/k: navigate  Enter: open menu  q: quit".to_owned(), false));
    app.open_menu("x".to_owned(), vec![]);
    assert_eq!(app.status_line(), (" j/k: navigate  Enter: select  Esc: back  q: quit".to_owned(), false));
    app.select_failed("no reply");
    assert_eq!(app.status_line(), (" Error: no reply".to_owned(), true));
}
