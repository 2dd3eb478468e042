//! IPC wire types of the newline-delimited JSON protocol, and how a client
//! reads the daemon's replies.

use vstd::prelude::*;

use crate::error::TuiError;
use crate::host::opt_view;

verus! {

// ─── Requests ────────────────────────────────────────────────────────────────

/// A request line: the protocol version and the command.
#[derive(Debug)]
pub struct Request {
    pub v: u8,
    pub cmd: Cmd,
}

/// A request command.
#[derive(Debug)]
pub enum Cmd {
    Ping,
    Subscribe,
    GetItems,
    GetMenu { app_id: String, submenu_id: Option<u32> },
    Activate { app_id: String, item_id: u32 },
}

/// The protocol version every request and response carries.
pub const PROTOCOL_VERSION: u8 = 1;

impl Request {
    /// A request for `cmd` in the current protocol version.
    pub fn new(cmd: Cmd) -> (r: Request)
        ensures
            r.v == PROTOCOL_VERSION,
            r.cmd == cmd,
    {
        Request { v: PROTOCOL_VERSION, cmd }
    }
}

// ─── Responses ───────────────────────────────────────────────────────────────

/// A reply line: an error or a success.
#[derive(Debug)]
pub enum Response {
    Error(ErrResponse),
    Success(OkResponse),
}

/// A success reply.
#[derive(Debug)]
pub struct OkResponse {
    pub v: u8,
    pub payload: Payload,
}

/// An error reply.
#[derive(Debug)]
pub struct ErrResponse {
    pub v: u8,
    pub error: IpcError,
}

/// The error carried by an error reply.
#[derive(Debug)]
pub struct IpcError {
    pub code: String,
    pub message: String,
}

/// What a success reply carries.
#[derive(Debug)]
#[allow(inconsistent_fields)]
pub enum Payload {
    Menu { app_id: String, items: Vec<MenuItem> },
    Ack,
    Items { items: Vec<MinimalTrayItem> },
    Pong,
    Event { event: TrayEvent },
}

/// One row of a menu.
#[derive(Debug)]
pub struct MenuItem {
    /// Stable row id within this menu.
    pub item_id: u32,
    /// Display text.
    pub label: String,
    /// `true` → has children; open it with this `item_id` as `submenu_id`.
    pub is_submenu: bool,
}

/// Mathematical model of a [`MenuItem`].
pub struct MenuItemView {
    pub item_id: u32,
    pub label: Seq<char>,
    pub is_submenu: bool,
}

impl View for MenuItem {
    type V = MenuItemView;

    open spec fn view(&self) -> MenuItemView {
        MenuItemView { item_id: self.item_id, label: self.label@, is_submenu: self.is_submenu }
    }
}

impl Clone for MenuItem {
    fn clone(&self) -> (r: Self)
        ensures
            r@ == self@,
    {
        MenuItem { item_id: self.item_id, label: self.label.clone(), is_submenu: self.is_submenu }
    }
}

/// The models of a list of menu rows.
pub open spec fn menu_item_views(v: Seq<MenuItem>) -> Seq<MenuItemView> {
    v.map_values(|m: MenuItem| m@)
}

/// One tray item as the wire shows it.
#[derive(Debug)]
pub struct MinimalTrayItem {
    /// Stable SNI registration id.
    pub app_id: String,
    /// Display name, absent when unknown.
    pub title: Option<String>,
    /// `"Active"`, `"Passive"` or `"NeedsAttention"`.
    pub status: String,
    /// Theme icon name or handle, absent when unknown.
    pub icon_handle: Option<String>,
}

/// Mathematical model of a [`MinimalTrayItem`].
pub struct MinimalTrayItemView {
    pub app_id: Seq<char>,
    pub title: Option<Seq<char>>,
    pub status: Seq<char>,
    pub icon_handle: Option<Seq<char>>,
}

impl View for MinimalTrayItem {
    type V = MinimalTrayItemView;

    open spec fn view(&self) -> MinimalTrayItemView {
        MinimalTrayItemView {
            app_id: self.app_id@,
            title: opt_view(self.title),
            status: self.status@,
            icon_handle: opt_view(self.icon_handle),
        }
    }
}

/// A copy of an optional string.
pub fn clone_opt(s: &Option<String>) -> (r: Option<String>)
    ensures
        opt_view(r) == opt_view(*s),
{
    match s {
        Some(t) => Some(t.clone()),
        None => None,
    }
}

impl Clone for MinimalTrayItem {
    fn clone(&self) -> (r: Self)
        ensures
            r@ == self@,
    {
        MinimalTrayItem {
            app_id: self.app_id.clone(),
            title: clone_opt(&self.title),
            status: self.status.clone(),
            icon_handle: clone_opt(&self.icon_handle),
        }
    }
}

/// The models of a list of tray items.
pub open spec fn tray_item_views(v: Seq<MinimalTrayItem>) -> Seq<MinimalTrayItemView> {
    v.map_values(|m: MinimalTrayItem| m@)
}

/// A change in the tray, pushed to subscribers.
#[derive(Debug)]
pub enum TrayEvent {
    /// The full current item list.
    Update(Vec<MinimalTrayItem>),
}

// ─── Reading replies ─────────────────────────────────────────────────────────

/// Why a reply was not the one a request expects.
#[derive(Debug)]
pub enum ResponseError {
    /// The daemon answered with an error.
    Daemon(IpcError),
    /// The daemon answered with a success of another kind.
    Unexpected(OkResponse),
}

/// `"<code>: <message>"`, how a daemon error is reported.
pub open spec fn spec_daemon_error_text(code: Seq<char>, message: Seq<char>) -> Seq<char> {
    code + ": "@ + message
}

impl IpcError {
    /// `"<code>: <message>"`.
    pub fn text(&self) -> (r: String)
        ensures
            r@ == spec_daemon_error_text(self.code@, self.message@),
    {
        self.code.clone().concat(": ").concat(self.message.as_str())
    }

    /// How the terminal client reports a daemon error: `Ipc("<code>: <message>")`.
    pub fn to_tui_error(&self) -> (r: TuiError)
        ensures
            r matches TuiError::Ipc(m) && m@ == spec_daemon_error_text(self.code@, self.message@),
    {
        TuiError::Ipc(self.text())
    }
}

impl Response {
    /// The item list of an `items` reply.
    pub fn into_items(self) -> (r: Result<Vec<MinimalTrayItem>, ResponseError>)
        ensures
            match self {
                Response::Success(OkResponse { payload: Payload::Items { items }, .. }) => r == Ok::<
                    Vec<MinimalTrayItem>,
                    ResponseError,
                >(items),
                Response::Success(ok) => r == Err::<Vec<MinimalTrayItem>, ResponseError>(
                    ResponseError::Unexpected(ok),
                ),
                Response::Error(e) => r == Err::<Vec<MinimalTrayItem>, ResponseError>(
                    ResponseError::Daemon(e.error),
                ),
            },
    {
        match self {
            Response::Success(OkResponse { payload: Payload::Items { items }, .. }) => Ok(items),
            Response::Success(ok) => Err(ResponseError::Unexpected(ok)),
            Response::Error(e) => Err(ResponseError::Daemon(e.error)),
        }
    }

    /// The rows of a `menu` reply.
    pub fn into_menu(self) -> (r: Result<Vec<MenuItem>, ResponseError>)
        ensures
            match self {
                Response::Success(OkResponse { payload: Payload::Menu { items, .. }, .. }) => r == Ok::<
                    Vec<MenuItem>,
                    ResponseError,
                >(items),
                Response::Success(ok) => r == Err::<Vec<MenuItem>, ResponseError>(
                    ResponseError::Unexpected(ok),
                ),
                Response::Error(e) => r == Err::<Vec<MenuItem>, ResponseError>(
                    ResponseError::Daemon(e.error),
                ),
            },
    {
        match self {
            Response::Success(OkResponse { payload: Payload::Menu { items, .. }, .. }) => Ok(items),
            Response::Success(ok) => Err(ResponseError::Unexpected(ok)),
            Response::Error(e) => Err(ResponseError::Daemon(e.error)),
        }
    }

    /// Success of an `ack` reply.
    pub fn into_ack(self) -> (r: Result<(), ResponseError>)
        ensures
            match self {
                Response::Success(OkResponse { payload: Payload::Ack, .. }) => r == Ok::<(), ResponseError>(()),
                Response::Success(ok) => r == Err::<(), ResponseError>(ResponseError::Unexpected(ok)),
                Response::Error(e) => r == Err::<(), ResponseError>(ResponseError::Daemon(e.error)),
            },
    {
        match self {
            Response::Success(OkResponse { payload: Payload::Ack, .. }) => Ok(()),
            Response::Success(ok) => Err(ResponseError::Unexpected(ok)),
            Response::Error(e) => Err(ResponseError::Daemon(e.error)),
        }
    }

    /// The event of an `event` reply.
    pub fn into_event(self) -> (r: Result<TrayEvent, ResponseError>)
        ensures
            match self {
                Response::Success(OkResponse { payload: Payload::Event { event }, .. }) => r == Ok::<
                    TrayEvent,
                    ResponseError,
                >(event),
                Response::Success(ok) => r == Err::<TrayEvent, ResponseError>(
                    ResponseError::Unexpected(ok),
                ),
                Response::Error(e) => r == Err::<TrayEvent, ResponseError>(
                    ResponseError::Daemon(e.error),
                ),
            },
    {
        match self {
            Response::Success(OkResponse { payload: Payload::Event { event }, .. }) => Ok(event),
            Response::Success(ok) => Err(ResponseError::Unexpected(ok)),
            Response::Error(e) => Err(ResponseError::Daemon(e.error)),
        }
    }

    /// Whether this is a `pong` reply.
    pub fn is_pong(&self) -> (r: bool)
        ensures
            r == (self matches Response::Success(OkResponse { payload: Payload::Pong, .. })),
    {
        match self {
            Response::Success(OkResponse { payload: Payload::Pong, .. }) => true,
            _ => false,
        }
    }
}

/// A request encoded as JSON, framed as one line.
pub fn frame_line(json: String) -> (r: String)
    ensures
        r@ == json@ + "\n"@,
{
    json.concat("\n")
}

/// A line read from the daemon: an empty read means the connection closed.
pub fn check_received(line: &str) -> (r: Result<(), TuiError>)
    ensures
        line@.len() == 0 <==> r is Err,
        r matches Err(e) ==> (e matches TuiError::DaemonUnreachable(m) && m@ == "connection closed"@),
{
    if line.unicode_len() == 0 {
        Err(TuiError::DaemonUnreachable(String::from_str("connection closed")))
    } else {
        Ok(())
    }
}

} // verus!
