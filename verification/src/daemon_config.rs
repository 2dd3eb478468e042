//! The daemon's configuration (`$XDG_CONFIG_HOME/trayd/trayd.toml`).

use vstd::prelude::*;

use crate::error::TraydBinError;
use crate::paths::{config_file_path, default_socket_path, opt_str, spec_config_base, spec_join, spec_runtime_dir_or_tmp};

verus! {

/// Daemon settings.
#[derive(Debug)]
pub struct Config {
    /// Unix socket path for the IPC server.
    pub socket_path: String,
    /// Tracing filter string (overridden by `RUST_LOG`).
    pub log_filter: String,
}

/// The log filter used when none is configured.
pub open spec fn spec_default_log_filter() -> Seq<char> {
    "warn"@
}

/// The log filter used when none is configured: `warn`.
pub fn default_log_filter() -> (r: String)
    ensures
        r@ == spec_default_log_filter(),
{
    String::from_str("warn")
}

impl Config {
    /// The defaults: the default socket in `runtime_dir` (`$XDG_RUNTIME_DIR`,
    /// `None` when unset) and the `warn` filter.
    pub fn default_in(runtime_dir: Option<&str>) -> (r: Config)
        ensures
            r.socket_path@ == spec_join(spec_runtime_dir_or_tmp(opt_str(runtime_dir)), "trayd.sock"@),
            r.log_filter@ == spec_default_log_filter(),
    {
        Config { socket_path: default_socket_path(runtime_dir), log_filter: default_log_filter() }
    }

    /// `$XDG_CONFIG_HOME/trayd/trayd.toml` (falls back to `~/.config/…`).
    pub fn xdg_path(config_home: Option<&str>, home: Option<&str>) -> (r: String)
        ensures
            r@ == spec_join(
                spec_join(spec_config_base(opt_str(config_home), opt_str(home)), "trayd"@),
                "trayd.toml"@,
            ),
    {
        config_file_path(config_home, home, "trayd", "trayd.toml")
    }

    /// The error for a file that could not be read or parsed: `"<path>: <reason>"`.
    pub fn load_error(path: &str, reason: &str) -> (r: TraydBinError)
        ensures
            r matches TraydBinError::Config(m) && m@ == path@ + ": "@ + reason@,
    {
        TraydBinError::Config(String::from_str(path).concat(": ").concat(reason))
    }
}

} // verus!
