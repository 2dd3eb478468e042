use trayd::error::TuiError;
use trayd::ipc::{
    check_received, frame_line, Cmd, ErrResponse, IpcError, MenuItem, MinimalTrayItem, OkResponse, Payload, Request,
    Response, ResponseError, TrayEvent, PROTOCOL_VERSION,
};

fn ok(payload: Payload) -> Response {
    Response::Success(OkResponse { v: 1, payload })
}

fn err(code: &str, message: &str) -> Response {
    Response::Error(ErrResponse {
        v: 1,
        error: IpcError { code: code.to_owned(), message: message.to_owned() },
    })
}

fn tray_item(app_id: &str) -> MinimalTrayItem {
    MinimalTrayItem { app_id: app_id.to_owned(), title: None, status: "Active".to_owned(), icon_handle: None }
}

#[test]
fn requests_carry_the_protocol_version() {
    let r = Request::new(Cmd::GetMenu { app_id: "nm-applet".to_owned(), submenu_id: Some(4) });
    assert_eq!(r.v, PROTOCOL_VERSION);
    assert_eq!(PROTOCOL_VERSION, 1);
    match r.cmd {
        Cmd::GetMenu { app_id, submenu_id } => {
            assert_eq!(app_id, "nm-applet");
            assert_eq!(submenu_id, Some(4));
        }
        other => panic!("unexpected command {other:?}"),
    }
}

#[test]
fn items_reply_gives_items() {
    let items = ok(Payload::Items { items: vec![tray_item("a"), tray_item("b")] }).into_items().unwrap();
    let ids: Vec<&str> = items.iter().map(|i| i.app_id.as_str()).collect();
    assert_eq!(ids, vec!["a", "b"]);
}

#[test]
fn menu_reply_gives_rows() {
    let rows = ok(Payload::Menu {
        app_id: "x".to_owned(),
        items: vec![MenuItem { item_id: 9, label: "Quit".to_owned(), is_submenu: false }],
    })
    .into_menu()
    .unwrap();
    assert_eq!(rows.len(), 1);
    assert_eq!(rows[0].item_id, 9);
    assert_eq!(rows[0].label, "Quit");
}

#[test]
fn ack_and_pong_replies() {
    assert!(ok(Payload::Ack).into_ack().is_ok());
    assert!(ok(Payload::Pong).is_pong());
    assert!(!ok(Payload::Ack).is_pong());
    assert!(!err("x", "y").is_pong());
}

#[test]
fn event_reply_gives_event() {
    match ok(Payload::Event { event: TrayEvent::Update(vec![tray_item("a")]) }).into_event().unwrap() {
        TrayEvent::Update(items) => assert_eq!(items[0].app_id, "a"),
    }
}

#[test]
fn another_success_is_unexpected() {
    match ok(Payload::Pong).into_items() {
        Err(ResponseError::Unexpected(o)) => assert!(matches!(o.payload, Payload::Pong)),
        other => panic!("unexpected {other:?}"),
    }
    match ok(Payload::Ack).into_menu() {
        Err(ResponseError::Unexpected(o)) => assert!(matches!(o.payload, Payload::Ack)),
        other => panic!("unexpected {other:?}"),
    }
    assert!(matches!(ok(Payload::Pong).into_ack(), Err(ResponseError::Unexpected(_))));
    assert!(matches!(ok(Payload::Ack).into_event(), Err(ResponseError::Unexpected(_))));
}

#[test]
fn error_reply_is_reported_with_code_and_message() {
    match err("not_found", "no such item").into_menu() {
        Err(ResponseError::Daemon(e)) => {
            assert_eq!(e.text(), "not_found: no such item");
            match e.to_tui_error() {
                TuiError::Ipc(m) => assert_eq!(m, "not_found: no such item"),
                other => panic!("unexpected {other:?}"),
            }
        }
        other => panic!("unexpected {other:?}"),
    }
    assert!(matches!(err("a", "b").into_items(), Err(ResponseError::Daemon(_))));
    assert!(matches!(err("a", "b").into_ack(), Err(ResponseError::Daemon(_))));
    assert!(matches!(err("a", "b").into_event(), Err(ResponseError::Daemon(_))));
}

#[test]
fn request_lines_end_with_a_newline() {
    assert_eq!(frame_line("{\"v\":1}".to_owned()), "{\"v\":1}\n");
}

#[test]
fn empty_read_means_closed_connection() {
    match check_received("") {
        Err(TuiError::DaemonUnreachable(m)) => assert_eq!(m, "connection closed"),
        other => panic!("unexpected {other:?}"),
    }
    assert!(check_received("{}\n").is_ok());
}
