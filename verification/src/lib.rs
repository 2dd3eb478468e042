//! Verified core of a system-tray daemon and its clients: the tray item model,
//! the StatusNotifier watcher registry, the host's item and pixmap cache, the
//! IPC wire types, the dmenu submenu loop and the terminal UI state machine.

pub mod app;
pub mod dmenu;
pub mod ctl_cli;
pub mod daemon_config;
pub mod error;
pub mod host;
pub mod ipc;
pub mod keyed;
pub mod menu;
pub mod paths;
pub mod model;
pub mod text;
pub mod trayd_cli;
pub mod tui_config;
pub mod watcher;
