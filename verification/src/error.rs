//! Error types of the tray host, the daemon, the terminal client and the menu tool.

use vstd::prelude::*;

verus! {

/// `zbus::Error`, the D-Bus transport or protocol error, carried through unchanged.
#[verifier::external_type_specification]
#[verifier::external_body]
pub struct ExZbusError(zbus::Error);

/// Errors from the tray host.
#[derive(Debug)]
pub enum TraydError {
    /// D-Bus transport or protocol error.
    DBus(zbus::Error),
    /// Item not found in the host cache.
    NotFound(String),
    /// D-Bus activation failed.
    ActivationFailed { app_id: String, reason: String },
    /// Operation not yet implemented.
    NotImplemented,
}


/// `std::io::Error`, an I/O failure, carried through unchanged.
#[verifier::external_type_specification]
#[verifier::external_body]
pub struct ExIoError(std::io::Error);

/// `serde_json::Error`, a JSON encoding or decoding failure, carried through unchanged.
#[verifier::external_type_specification]
#[verifier::external_body]
pub struct ExJsonError(serde_json::Error);

/// Errors of the terminal client.
#[derive(Debug)]
pub enum TuiError {
    Io(std::io::Error),
    Json(serde_json::Error),
    Config(String),
    DaemonUnreachable(String),
    Ipc(String),
}

/// Errors of the daemon binary.
#[derive(Debug)]
pub enum TraydBinError {
    Host(TraydError),
    Io(std::io::Error),
    Json(serde_json::Error),
    Config(String),
    AlreadyRunning,
    DaemonUnreachable(String),
    UnexpectedResponse,
}

/// Errors of the menu tool.
#[derive(Debug)]
pub enum CtlError {
    DaemonUnreachable(String),
    Ipc(String),
    Io(std::io::Error),
    Json(serde_json::Error),
    InvalidDmenuCmd(String),
    DmenuSpawn(String),
    IpcNotReady,
}

} // verus!
