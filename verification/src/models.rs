//! Data model of the backend: registry records, the category catalog entry,
//! system information, the uniform response envelope, and the plain-value
//! shapes in which the surrounding binary reports filesystem outcomes.

use vstd::prelude::*;

verus! {

/// One configuration file as served to the front end: the static registry
/// fields plus live-probed metadata and, for a detail request, the content.
#[derive(Debug, Clone)]
pub struct ConfigFile {
    pub id: String,
    pub name: String,
    pub path: String,
    pub category: String,
    pub description: String,
    /// Seconds since the Unix epoch; 0 when no probe supplied a value.
    pub last_modified: i64,
    pub size: i64,
    pub is_symlink: bool,
    pub backup_exists: bool,
    pub content: Option<String>,
}

/// One entry of the static category catalog.
#[derive(Debug, Clone)]
pub struct ConfigCategory {
    pub id: String,
    pub name: String,
    pub icon: String,
    pub color: String,
    pub description: String,
}

/// Host information served by the system-info command.
#[derive(Debug, Clone)]
pub struct SystemInfo {
    pub os: String,
    pub kernel: String,
    pub shell: String,
    pub home_dir: String,
    pub user: String,
}

/// Request body of the update command.
#[derive(Debug, Clone)]
pub struct UpdateFileRequest {
    pub content: String,
}

/// Response body of the backup command.
#[derive(Debug, Clone)]
pub struct BackupFileResponse {
    pub message: String,
    pub backup_path: String,
}

/// The uniform envelope every command returns.
#[derive(Debug, Clone)]
pub struct ApiResponse<T> {
    pub success: bool,
    pub message: Option<String>,
    pub data: Option<T>,
}

impl<T> ApiResponse<T> {
    /// The envelope is a failure carrying exactly this message and no data.
    pub open spec fn is_error_with(&self, text: Seq<char>) -> bool {
        &&& !self.success
        &&& self.data is None
        &&& self.message matches Some(m) && m@ == text
    }

    /// The envelope is a success carrying data and no message.
    pub open spec fn is_data_only(&self) -> bool {
        &&& self.success
        &&& self.message is None
        &&& self.data is Some
    }

    /// A successful envelope carrying only data.
    pub fn success(data: T) -> (r: Self)
        ensures
            r.success,
            r.message is None,
            r.data == Some(data),
    {
        Self { success: true, message: None, data: Some(data) }
    }

    /// A successful envelope carrying data and a message.
    pub fn success_with_message(data: T, message: String) -> (r: Self)
        ensures
            r.success,
            r.message == Some(message),
            r.data == Some(data),
    {
        Self { success: true, message: Some(message), data: Some(data) }
    }

    /// A failed envelope carrying only a message.
    pub fn error(message: String) -> (r: Self)
        ensures
            !r.success,
            r.message == Some(message),
            r.data is None,
    {
        Self { success: false, message: Some(message), data: None }
    }
}

/// Live metadata of one resolved path, as reported by a successful stat.
#[derive(Debug, Clone, Copy)]
pub struct FileProbe {
    /// Modification time in seconds since the Unix epoch.
    pub modified: i64,
    pub size: i64,
    pub is_symlink: bool,
    pub backup_exists: bool,
}

/// What came of reading a resolved path for a detail request.
#[derive(Debug, Clone)]
pub enum ReadOutcome {
    /// The path does not exist on disk.
    Missing { path: String },
    /// The path exists but could not be read as text.
    Unreadable { path: String, detail: String },
    /// The file was read; the stat taken after the read, if it succeeded.
    Content { text: String, probe: Option<FileProbe> },
}

/// What came of overwriting a resolved path for an update request.
#[derive(Debug, Clone)]
pub enum WriteOutcome {
    Written,
    Failed { path: String, detail: String },
}

/// What came of copying a resolved path to its backup destination.
#[derive(Debug, Clone)]
pub enum CopyOutcome {
    /// The source path does not exist on disk.
    SourceMissing { path: String },
    /// No destination could be named: the clock could not report the
    /// current instant, so no copy was attempted.
    ClockUnavailable,
    /// The copy itself failed.
    Failed { backup_path: String, detail: String },
    Copied { backup_path: String },
}

} // verus!
