//! The failures that the synchronisation operations report.
use vstd::prelude::*;

verus! {

/// What went wrong, precise enough for the caller to tell the user what to do.
#[derive(Clone, Debug, PartialEq, Eq)]
pub enum SyncError {
    /// The local data file could not be read or written.
    Io(String),
    /// The configuration file could not be written.
    Config(String),
    /// A remote operation was asked for while no server is configured.
    NotConfigured,
    /// The server refused the credentials (HTTP 401 or 403).
    Auth,
    /// Any other HTTP failure, with its status, or a transport failure
    /// (name resolution, connection, timeout), without one.
    Network { status: Option<u16>, detail: String },
    /// A stored credential could not be revealed: the configuration is corrupt.
    Decode,
}

} // verus!
