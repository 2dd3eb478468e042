use std::path::Path;

use trayd::daemon_config::Config as DaemonConfig;
use trayd::tui_config::Config as TuiConfig;

#[test]
fn defaults_are_sensible() {
    let cfg = DaemonConfig::default_in(None);
    assert!(Path::new(&cfg.socket_path).file_name().unwrap() == "trayd.sock");
    assert!(!cfg.log_filter.is_empty());
}

#[test]
fn default_has_no_socket_path() {
    let config = TuiConfig::default();
    assert!(config.socket_path.is_none());
}

#[test]
fn resolve_socket_prefers_cli_override() {
    let config = TuiConfig::default();
    let override_path = String::from("/tmp/custom.sock");
    let path = config
        .resolve_socket(Some(override_path.clone()), Some("/run/user/1000"))
        .unwrap();
    assert_eq!(path, override_path);
}

#[test]
fn resolve_socket_uses_config_field() {
    let config = TuiConfig {
        socket_path: Some(String::from("/tmp/from-config.sock")),
    };
    let path = config.resolve_socket(None, Some("/run/user/1000")).unwrap();
    assert_eq!(path, String::from("/tmp/from-config.sock"));
}
