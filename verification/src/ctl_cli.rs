//! Command line of the menu tool (`trayctl`).

use vstd::prelude::*;

use crate::error::CtlError;
use crate::paths::{join, spec_join};

verus! {

/// Parsed command line.
#[derive(Debug)]
pub struct Cli {
    /// Unix socket path (default: `$XDG_RUNTIME_DIR/trayd.sock`).
    pub socket: Option<String>,
    pub command: Command,
}

/// What to do.
#[derive(Debug)]
pub enum Command {
    /// Run the dmenu submenu loop for one tray app.
    Menu {
        /// StatusNotifier app id (wire `app_id`).
        app_id: String,
        /// dmenu-compatible command, e.g. `tofi --mode dmenu` or `rofi -dmenu`.
        dmenu_cmd: String,
    },
    /// Print tray items (`get_items`) as JSON — useful for scripts.
    Items,
}

/// The picker used when none is given.
pub open spec fn spec_default_dmenu_cmd() -> Seq<char> {
    "tofi --mode dmenu"@
}

/// The picker used when none is given: `tofi --mode dmenu`.
pub fn default_dmenu_cmd() -> (r: String)
    ensures
        r@ == spec_default_dmenu_cmd(),
{
    String::from_str("tofi --mode dmenu")
}

/// Resolve the default socket path from `$XDG_RUNTIME_DIR/trayd.sock`
/// (`runtime_dir`, `None` when unset, which is an error).
pub fn default_socket_path(runtime_dir: Option<&str>) -> (r: Result<String, CtlError>)
    ensures
        runtime_dir matches Some(d) ==> (r matches Ok(p) && p@ == spec_join(d@, "trayd.sock"@)),
        runtime_dir is None ==> (r matches Err(CtlError::DaemonUnreachable(m)) && m@
            == "XDG_RUNTIME_DIR not set"@),
{
    match runtime_dir {
        Some(dir) => Ok(join(dir, "trayd.sock")),
        None => Err(CtlError::DaemonUnreachable(String::from_str("XDG_RUNTIME_DIR not set"))),
    }
}

impl Cli {
    /// The socket to connect to: `--socket` when given, else the default
    /// (which needs `$XDG_RUNTIME_DIR`, given as `runtime_dir`).
    pub fn socket_path(&self, runtime_dir: Option<&str>) -> (r: Result<String, CtlError>)
        ensures
            self.socket matches Some(s) ==> (r matches Ok(p) && p@ == s@),
            self.socket is None && runtime_dir is Some ==> (r matches Ok(p) && p@ == spec_join(
                runtime_dir->0@,
                "trayd.sock"@,
            )),
            self.socket is None && runtime_dir is None ==> (r matches Err(CtlError::DaemonUnreachable(m))
                && m@ == "XDG_RUNTIME_DIR not set"@),
    {
        match &self.socket {
            Some(s) => Ok(s.clone()),
            None => default_socket_path(runtime_dir),
        }
    }
}

/// The socket client is not available yet.
pub fn stub_connect() -> (r: Result<(), CtlError>)
    ensures
        r matches Err(CtlError::IpcNotReady),
{
    Err(CtlError::IpcNotReady)
}

} // verus!
