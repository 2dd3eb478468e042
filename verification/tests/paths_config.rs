use trayd::ctl_cli::{self, stub_connect, Cli, Command as CtlCommand};
use trayd::daemon_config::{default_log_filter, Config as DaemonConfig};
use trayd::error::{CtlError, TraydBinError, TuiError};
use trayd::paths::{config_file_path, config_source, default_socket_path, join, ConfigSource};
use trayd::trayd_cli::{Cli as DaemonCli, Command as DaemonCommand};
use trayd::tui_config::Config as TuiConfig;

#[test]
fn join_adds_one_separator() {
    assert_eq!(join("/run/user/1000", "trayd.sock"), "/run/user/1000/trayd.sock");
    assert_eq!(join("/tmp/", "trayd.sock"), "/tmp/trayd.sock");
    assert_eq!(join("", "trayd.sock"), "trayd.sock");
}

#[test]
fn daemon_socket_defaults_to_tmp() {
    assert_eq!(default_socket_path(Some("/run/user/7")), "/run/user/7/trayd.sock");
    assert_eq!(default_socket_path(None), "/tmp/trayd.sock");
    let c = DaemonConfig::default_in(Some("/run/user/7"));
    assert_eq!(c.socket_path, "/run/user/7/trayd.sock");
    assert_eq!(c.log_filter, "warn");
    assert_eq!(default_log_filter(), "warn");
}

#[test]
fn config_files_follow_xdg() {
    assert_eq!(DaemonConfig::xdg_path(Some("/cfg"), Some("/home/u")), "/cfg/trayd/trayd.toml");
    assert_eq!(DaemonConfig::xdg_path(None, Some("/home/u")), "/home/u/.config/trayd/trayd.toml");
    assert_eq!(TuiConfig::xdg_path(None, None), "/root/.config/tray-tui/config.toml");
    assert_eq!(TuiConfig::xdg_path(Some("/cfg/"), None), "/cfg/tray-tui/config.toml");
    assert_eq!(config_file_path(Some("/c"), None, "d", "f.toml"), "/c/d/f.toml");
}

#[test]
fn explicit_config_wins_then_existing_xdg_then_defaults() {
    match config_source(Some("/x.toml".to_owned()), "/xdg.toml".to_owned(), true) {
        ConfigSource::File(p) => assert_eq!(p, "/x.toml"),
        ConfigSource::Defaults => panic!("expected a file"),
    }
    match config_source(None, "/xdg.toml".to_owned(), true) {
        ConfigSource::File(p) => assert_eq!(p, "/xdg.toml"),
        ConfigSource::Defaults => panic!("expected a file"),
    }
    assert!(matches!(config_source(None, "/xdg.toml".to_owned(), false), ConfigSource::Defaults));
}

#[test]
fn load_errors_name_the_file() {
    match DaemonConfig::load_error("/a.toml", "bad key") {
        TraydBinError::Config(m) => assert_eq!(m, "/a.toml: bad key"),
        other => panic!("unexpected {other:?}"),
    }
    match TuiConfig::load_error("/b.toml", "missing") {
        TuiError::Config(m) => assert_eq!(m, "/b.toml: missing"),
        other => panic!("unexpected {other:?}"),
    }
}

#[test]
fn resolve_socket_falls_back_to_runtime_dir() {
    let c = TuiConfig::default();
    assert_eq!(c.resolve_socket(None, Some("/run/user/3")).unwrap(), "/run/user/3/trayd.sock");
    match c.resolve_socket(None, None) {
        Err(TuiError::DaemonUnreachable(m)) => assert_eq!(m, "XDG_RUNTIME_DIR not set"),
        other => panic!("unexpected {other:?}"),
    }
}

#[test]
fn menu_tool_socket_resolution() {
    let with_flag = Cli { socket: Some("/s.sock".to_owned()), command: CtlCommand::Items };
    assert_eq!(with_flag.socket_path(None).unwrap(), "/s.sock");
    let without = Cli { socket: None, command: CtlCommand::Items };
    assert_eq!(without.socket_path(Some("/run/user/1")).unwrap(), "/run/user/1/trayd.sock");
    match without.socket_path(None) {
        Err(CtlError::DaemonUnreachable(m)) => assert_eq!(m, "XDG_RUNTIME_DIR not set"),
        other => panic!("unexpected {other:?}"),
    }
    assert_eq!(ctl_cli::default_socket_path(Some("/r")).unwrap(), "/r/trayd.sock");
    assert_eq!(ctl_cli::default_dmenu_cmd(), "tofi --mode dmenu");
    assert!(matches!(stub_connect(), Err(CtlError::IpcNotReady)));
}

#[test]
fn daemon_runs_when_no_command_is_given() {
    let none = DaemonCli { config: None, command: None };
    assert_eq!(none.effective_command(), DaemonCommand::Run);
    let ping = DaemonCli { config: None, command: Some(DaemonCommand::Ping) };
    assert_eq!(ping.effective_command(), DaemonCommand::Ping);
}

#[test]
fn default_picker_command() {
    assert_eq!(ctl_cli::default_dmenu_cmd(), "tofi --mode dmenu");
}
