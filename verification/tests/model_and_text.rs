use trayd::model::{IconData, IconPixmap, TrayStatus};
use trayd::text::{find_char, split_whitespace, trim};

#[test]
fn status_from_dbus_known_values() {
    assert_eq!(TrayStatus::from_dbus("Active"), TrayStatus::Active);
    assert_eq!(TrayStatus::from_dbus("NeedsAttention"), TrayStatus::NeedsAttention);
    assert_eq!(TrayStatus::from_dbus("Passive"), TrayStatus::Passive);
}

#[test]
fn status_from_dbus_unknown_is_passive() {
    assert_eq!(TrayStatus::from_dbus("active"), TrayStatus::Passive);
    assert_eq!(TrayStatus::from_dbus(""), TrayStatus::Passive);
}

#[test]
fn status_round_trip() {
    for s in [TrayStatus::Passive, TrayStatus::Active, TrayStatus::NeedsAttention] {
        assert_eq!(TrayStatus::from_dbus(s.as_str()), s);
    }
    assert_eq!(TrayStatus::NeedsAttention.as_str(), "NeedsAttention");
    assert_eq!(TrayStatus::default(), TrayStatus::Passive);
}

#[test]
fn icon_data_emptiness_and_handle() {
    let empty = IconData::default();
    assert!(empty.is_empty());
    assert_eq!(empty.as_handle(), None);

    let named = IconData { name: "nm-applet".to_owned(), pixmaps: vec![] };
    assert!(!named.is_empty());
    assert_eq!(named.as_handle(), Some("nm-applet".to_owned()));

    let pixmap_only = IconData {
        name: String::new(),
        pixmaps: vec![IconPixmap { width: 1, height: 1, data: vec![0, 0, 0, 0] }],
    };
    assert!(!pixmap_only.is_empty());
    assert_eq!(pixmap_only.as_handle(), None);
}

#[test]
fn trim_removes_surrounding_white_space() {
    assert_eq!(trim("  Copy \n"), "Copy");
    assert_eq!(trim("\t\r\n "), "");
    assert_eq!(trim("a b"), "a b");
}

#[test]
fn split_whitespace_gives_words() {
    assert_eq!(split_whitespace("  tofi  --mode\tdmenu \n"), vec!["tofi", "--mode", "dmenu"]);
    assert!(split_whitespace("   ").is_empty());
}

#[test]
fn find_char_gives_first_position() {
    assert_eq!(find_char("a/b/c", '/'), Some(1));
    assert_eq!(find_char("abc", '/'), None);
}
