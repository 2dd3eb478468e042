//! The terminal client's configuration (`$XDG_CONFIG_HOME/tray-tui/config.toml`).

use vstd::prelude::*;

use crate::error::TuiError;
use crate::paths::{config_file_path, join, opt_str, spec_config_base, spec_join};

verus! {

/// Terminal client settings.
#[derive(Debug)]
pub struct Config {
    /// Unix socket path (default: `$XDG_RUNTIME_DIR/trayd.sock`).
    pub socket_path: Option<String>,
}

impl Default for Config {
    fn default() -> (r: Config)
        ensures
            r.socket_path is None,
    {
        Config { socket_path: None }
    }
}

impl Config {
    /// `$XDG_CONFIG_HOME/tray-tui/config.toml` (falls back to `~/.config/…`).
    pub fn xdg_path(config_home: Option<&str>, home: Option<&str>) -> (r: String)
        ensures
            r@ == spec_join(
                spec_join(spec_config_base(opt_str(config_home), opt_str(home)), "tray-tui"@),
                "config.toml"@,
            ),
    {
        config_file_path(config_home, home, "tray-tui", "config.toml")
    }

    /// The error for a file that could not be read or parsed: `"<path>: <reason>"`.
    pub fn load_error(path: &str, reason: &str) -> (r: TuiError)
        ensures
            r matches TuiError::Config(m) && m@ == path@ + ": "@ + reason@,
    {
        TuiError::Config(String::from_str(path).concat(": ").concat(reason))
    }

    /// Resolve the active socket path: CLI override → config field →
    /// `$XDG_RUNTIME_DIR/trayd.sock` (`runtime_dir`, `None` when unset, which is an error).
    pub fn resolve_socket(&self, cli_override: Option<String>, runtime_dir: Option<&str>) -> (r: Result<String, TuiError>)
        ensures
            cli_override matches Some(p) ==> r == Ok::<String, TuiError>(p),
            cli_override is None && self.socket_path is Some ==> (r matches Ok(p) && p@ == self.socket_path->0@),
            cli_override is None && self.socket_path is None && runtime_dir is Some ==> (r matches Ok(p)
                && p@ == spec_join(runtime_dir->0@, "trayd.sock"@)),
            cli_override is None && self.socket_path is None && runtime_dir is None ==> (r matches Err(
                TuiError::DaemonUnreachable(m),
            ) && m@ == "XDG_RUNTIME_DIR not set"@),
    {
        if let Some(p) = cli_override {
            return Ok(p);
        }
        if let Some(p) = &self.socket_path {
            return Ok(p.clone());
        }
        match runtime_dir {
            Some(dir) => Ok(join(dir, "trayd.sock")),
            None => Err(TuiError::DaemonUnreachable(String::from_str("XDG_RUNTIME_DIR not set"))),
        }
    }
}

} // verus!
