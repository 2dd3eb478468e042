//! Command line of the daemon (`trayd`).

use vstd::prelude::*;

verus! {

/// Parsed command line.
#[derive(Debug)]
pub struct Cli {
    /// Path to config file (default: `$XDG_CONFIG_HOME/trayd/trayd.toml`).
    pub config: Option<String>,
    pub command: Option<Command>,
}

/// What to do.
#[derive(Debug, Clone, Copy, PartialEq, Eq, Structural)]
pub enum Command {
    /// Run the tray daemon (default).
    Run,
    /// Check daemon reachability over IPC.
    Ping,
}

impl Cli {
    /// The command to carry out: running the daemon when none is given.
    pub fn effective_command(&self) -> (r: Command)
        ensures
            r == match self.command {
                Some(c) => c,
                None => Command::Run,
            },
    {
        match self.command {
            Some(c) => c,
            None => Command::Run,
        }
    }
}

} // verus!
