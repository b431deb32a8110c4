//! The error kinds that the daemon reports to its clients.

use vstd::prelude::*;
use crate::text::concat;

verus! {

/// An error of the daemon, with the text that describes it.
#[derive(Clone, Debug)]
pub enum Error {
    ProjectNotFound(String),
    TerminalNotFound(String),
    GitError(String),
    IoError(String),
    ConfigError(String),
    TerminalError(String),
    ClientNotFound(String),
    WorktreeError(String),
    SerializationError(String),
    InvalidRequest(String),
}

/// The words that open the message of each kind of error.
pub open spec fn error_prefix(e: Error) -> Seq<char> {
    match e {
        Error::ProjectNotFound(_) => "Project not found: "@,
        Error::TerminalNotFound(_) => "Terminal not found: "@,
        Error::GitError(_) => "Git error: "@,
        Error::IoError(_) => "IO error: "@,
        Error::ConfigError(_) => "Configuration error: "@,
        Error::TerminalError(_) => "Terminal error: "@,
        Error::ClientNotFound(_) => "Client not found: "@,
        Error::WorktreeError(_) => "Worktree error: "@,
        Error::SerializationError(_) => "Serialization error: "@,
        Error::InvalidRequest(_) => "Invalid request: "@,
    }
}

/// The detail that an error carries.
pub open spec fn error_detail(e: Error) -> Seq<char> {
    match e {
        Error::ProjectNotFound(s) => s@,
        Error::TerminalNotFound(s) => s@,
        Error::GitError(s) => s@,
        Error::IoError(s) => s@,
        Error::ConfigError(s) => s@,
        Error::TerminalError(s) => s@,
        Error::ClientNotFound(s) => s@,
        Error::WorktreeError(s) => s@,
        Error::SerializationError(s) => s@,
        Error::InvalidRequest(s) => s@,
    }
}

impl Error {
    /// The human-readable message: the kind's prefix followed by the detail.
    pub fn message(&self) -> (r: String)
        ensures
            r@ == error_prefix(*self) + error_detail(*self),
    {
        match self {
            Error::ProjectNotFound(s) => concat("Project not found: ", s.as_str()),
            Error::TerminalNotFound(s) => concat("Terminal not found: ", s.as_str()),
            Error::GitError(s) => concat("Git error: ", s.as_str()),
            Error::IoError(s) => concat("IO error: ", s.as_str()),
            Error::ConfigError(s) => concat("Configuration error: ", s.as_str()),
            Error::TerminalError(s) => concat("Terminal error: ", s.as_str()),
            Error::ClientNotFound(s) => concat("Client not found: ", s.as_str()),
            Error::WorktreeError(s) => concat("Worktree error: ", s.as_str()),
            Error::SerializationError(s) => concat("Serialization error: ", s.as_str()),
            Error::InvalidRequest(s) => concat("Invalid request: ", s.as_str()),
        }
    }
}

} // verus!
