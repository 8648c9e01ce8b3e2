//! The error kinds a command can report, each carrying what its
//! human-readable message needs, and the exact text of that message.

use vstd::prelude::*;
use vstd::string::StringExecFns;

verus! {

/// Everything that can go wrong while serving a command. `EmptyId` is the
/// client error rejected before any filesystem work; `HomeUnavailable` and
/// `ClockUnavailable` are environment errors — no home directory for the
/// paths, no reportable instant for a backup name; the rest classify a
/// missing target or a failed read, write or copy.
#[derive(Debug, Clone)]
pub enum ConfigError {
    EmptyId,
    HomeUnavailable,
    ClockUnavailable,
    UnknownId { id: String },
    MissingPath { path: String },
    ReadFailed { path: String, detail: String },
    WriteFailed { path: String, detail: String },
    CopyFailed { backup_path: String, detail: String },
}

impl ConfigError {
    /// The exact message text of each error kind.
    pub open spec fn message_view(&self) -> Seq<char> {
        match self {
            ConfigError::EmptyId => "file id must not be empty"@,
            ConfigError::HomeUnavailable => "unable to determine the home directory"@,
            ConfigError::ClockUnavailable => "unable to determine the current time"@,
            ConfigError::UnknownId { id } => "file not found: "@ + id@,
            ConfigError::MissingPath { path } => "file does not exist: "@ + path@,
            ConfigError::ReadFailed { path, detail } => "unable to read file "@ + path@ + ": "@
                + detail@,
            ConfigError::WriteFailed { path, detail } => "unable to write file "@ + path@ + ": "@
                + detail@,
            ConfigError::CopyFailed { backup_path, detail } => "unable to create backup file "@
                + backup_path@ + ": "@ + detail@,
        }
    }

    /// The human-readable message placed in a failed envelope.
    pub fn message(&self) -> (r: String)
        ensures
            r@ == self.message_view(),
    {
        match self {
            ConfigError::EmptyId => String::from_str("file id must not be empty"),
            ConfigError::HomeUnavailable => String::from_str(
                "unable to determine the home directory",
            ),
            ConfigError::ClockUnavailable => String::from_str(
                "unable to determine the current time",
            ),
            ConfigError::UnknownId { id } => String::from_str("file not found: ").concat(
                id.as_str(),
            ),
            ConfigError::MissingPath { path } => String::from_str("file does not exist: ").concat(
                path.as_str(),
            ),
            ConfigError::ReadFailed { path, detail } => String::from_str("unable to read file ")
                .concat(path.as_str()).concat(": ").concat(detail.as_str()),
            ConfigError::WriteFailed { path, detail } => String::from_str("unable to write file ")
                .concat(path.as_str()).concat(": ").concat(detail.as_str()),
            ConfigError::CopyFailed { backup_path, detail } => String::from_str(
                "unable to create backup file ",
            ).concat(backup_path.as_str()).concat(": ").concat(detail.as_str()),
        }
    }
}

} // verus!
