use trayd::dmenu::{
    dmenu_input, parse_dmenu_cmd, parse_selection, visible_labels, MenuStep, SelectionStep, SubmenuLoop,
};
use trayd::error::CtlError;
use trayd::ipc::MenuItem;

fn row(item_id: u32, label: &str, is_submenu: bool) -> MenuItem {
    MenuItem { item_id, label: label.to_owned(), is_submenu }
}

#[test]
fn picker_command_splits_at_white_space() {
    let (program, args) = parse_dmenu_cmd("  tofi   --mode dmenu ").unwrap();
    assert_eq!(program, "tofi");
    assert_eq!(args, vec!["--mode".to_owned(), "dmenu".to_owned()]);
    let (program, args) = parse_dmenu_cmd("dmenu").unwrap();
    assert_eq!(program, "dmenu");
    assert!(args.is_empty());
}

#[test]
fn blank_picker_command_is_invalid() {
    match parse_dmenu_cmd(" \t ") {
        Err(CtlError::InvalidDmenuCmd(c)) => assert_eq!(c, " \t "),
        other => panic!("unexpected {other:?}"),
    }
    assert!(matches!(parse_dmenu_cmd(""), Err(CtlError::InvalidDmenuCmd(_))));
}

#[test]
fn picker_input_has_one_label_per_line() {
    assert_eq!(dmenu_input(&vec!["Copy".to_owned(), "Paste".to_owned()]), "Copy\nPaste\n");
    assert_eq!(dmenu_input(&vec![]), "\n");
}

#[test]
fn selection_is_trimmed_and_blank_cancels() {
    assert_eq!(parse_selection("  Paste \n"), Some("Paste".to_owned()));
    assert_eq!(parse_selection("\n"), None);
    assert_eq!(parse_selection(""), None);
}

#[test]
fn visible_labels_keep_order_and_drop_separators() {
    let rows = [row(1, "Copy", false), row(2, "", false), row(3, "More", true)];
    assert_eq!(visible_labels(&rows), vec!["Copy".to_owned(), "More".to_owned()]);
}

#[test]
fn loop_prompts_descends_and_activates() {
    let mut l = SubmenuLoop::new();
    assert_eq!(l.submenu_id, None);
    let top = [row(1, "Copy", false), row(2, "More", true)];
    match l.on_menu(&top) {
        MenuStep::Prompt(labels) => assert_eq!(labels, vec!["Copy".to_owned(), "More".to_owned()]),
        MenuStep::Done => panic!("expected a prompt"),
    }
    assert_eq!(l.on_selection(&top, Some("More".to_owned())), SelectionStep::Descend(2));
    assert_eq!(l.submenu_id, Some(2));
    let sub = [row(5, "Inner", false)];
    assert_eq!(l.on_selection(&sub, Some("Inner".to_owned())), SelectionStep::Activate(5));
    assert_eq!(l.submenu_id, Some(2));
}

#[test]
fn loop_stops_on_cancel_unknown_or_empty_level() {
    let mut l = SubmenuLoop::new();
    let rows = [row(1, "Copy", false)];
    assert_eq!(l.on_selection(&rows, None), SelectionStep::Done);
    assert_eq!(l.on_selection(&rows, Some("Cut".to_owned())), SelectionStep::Done);
    assert_eq!(l.submenu_id, None);
    assert!(matches!(l.on_menu(&[row(1, "", false)]), MenuStep::Done));
    assert!(matches!(l.on_menu(&[]), MenuStep::Done));
}
