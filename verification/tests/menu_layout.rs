use trayd::menu::{menu_nodes_from_av, LayoutEntry};

fn entry(id: i32, label: Option<&str>, children: Vec<Option<LayoutEntry>>) -> LayoutEntry {
    LayoutEntry {
        id,
        label: label.map(|s| s.to_owned()),
        enabled: None,
        visible: None,
        icon_name: None,
        children_display: false,
        children,
    }
}

#[test]
fn menu_nodes_from_av_empty_slice() {
    let nodes = menu_nodes_from_av(&vec![]);
    assert!(nodes.is_empty());
}

#[test]
fn absent_properties_take_their_defaults() {
    let nodes = menu_nodes_from_av(&vec![Some(entry(3, None, vec![]))]);
    assert_eq!(nodes.len(), 1);
    let n = &nodes[0];
    assert_eq!(n.id, 3);
    assert_eq!(n.label, "");
    assert!(n.enabled);
    assert!(n.visible);
    assert_eq!(n.icon_name, "");
    assert!(!n.is_submenu);
    assert!(n.children.is_empty());
}

#[test]
fn given_properties_are_kept() {
    let mut e = entry(7, Some("Quit"), vec![]);
    e.enabled = Some(false);
    e.visible = Some(false);
    e.icon_name = Some("application-exit".to_owned());
    let nodes = menu_nodes_from_av(&vec![Some(e)]);
    let n = &nodes[0];
    assert_eq!(n.label, "Quit");
    assert!(!n.enabled);
    assert!(!n.visible);
    assert_eq!(n.icon_name, "application-exit");
}

#[test]
fn undecodable_entries_are_skipped() {
    let nodes = menu_nodes_from_av(&vec![
        Some(entry(1, Some("a"), vec![])),
        None,
        Some(entry(2, Some("b"), vec![])),
    ]);
    let ids: Vec<i32> = nodes.iter().map(|n| n.id).collect();
    assert_eq!(ids, vec![1, 2]);
}

#[test]
fn submenus_come_from_children_or_children_display() {
    let mut announced = entry(1, Some("More"), vec![]);
    announced.children_display = true;
    let nested = entry(2, Some("Nested"), vec![Some(entry(3, Some("Inner"), vec![])), None]);
    let nodes = menu_nodes_from_av(&vec![Some(announced), Some(nested)]);
    assert!(nodes[0].is_submenu);
    assert!(nodes[0].children.is_empty());
    assert!(nodes[1].is_submenu);
    assert_eq!(nodes[1].children.len(), 1);
    assert_eq!(nodes[1].children[0].label, "Inner");
    assert!(!nodes[1].children[0].is_submenu);
}
