//! The command boundary: one function per front-end command, each converting
//! a service verdict into the uniform envelope. An empty file id is rejected
//! here, before any other work, as the client error.

use vstd::prelude::*;
use vstd::string::StringExecFns;

use crate::errors::ConfigError;
use crate::models::{
    ApiResponse, BackupFileResponse, ConfigCategory, ConfigFile, CopyOutcome, FileProbe,
    ReadOutcome, SystemInfo, WriteOutcome,
};
use crate::registry::{category_matches, entry_id, is_registered, CATEGORY_LEN, REGISTRY_LEN};
use crate::service::{detail_matches, listing_matches, ConfigService};
use crate::system::{kernel_spec, os_name_spec, shell_spec, user_spec, HostEnv, SystemService};

verus! {

/// A failed envelope carrying exactly the message of `e`: how the
/// surrounding binary reports an error met before a command's outcome stage.
pub fn error_envelope<T>(e: &ConfigError) -> (r: ApiResponse<T>)
    ensures
        r.is_error_with(e.message_view()),
{
    ApiResponse::error(e.message())
}

/// The category listing command: always succeeds with the six fixed
/// categories, whatever the state of the filesystem.
pub fn get_categories(config_service: &ConfigService) -> (r: ApiResponse<Vec<ConfigCategory>>)
    ensures
        r.is_data_only(),
        r.data matches Some(d) && d@.len() == CATEGORY_LEN && forall|i: int|
            0 <= i < CATEGORY_LEN ==> category_matches(#[trigger] d@[i], i),
{
    ApiResponse::success(config_service.get_categories())
}

/// The file listing command: the listing the probes describe, or a failure
/// naming the home directory when none can be determined.
pub fn get_files(config_service: &ConfigService, probes: &Vec<Option<FileProbe>>) -> (r:
    ApiResponse<Vec<ConfigFile>>)
    requires
        probes@.len() == REGISTRY_LEN,
    ensures
        r.success ==> (r.message is None && (r.data matches Some(d) && listing_matches(
            d@,
            probes@,
        ))),
        !r.success ==> r.is_error_with(
            "failed to list files: "@ + "unable to determine the home directory"@,
        ),
{
    match config_service.get_files(probes) {
        Ok(files) => ApiResponse::success(files),
        Err(e) => ApiResponse::error(
            String::from_str("failed to list files: ").concat(e.message().as_str()),
        ),
    }
}

/// The file detail command: the client error for an empty id, otherwise the
/// service verdict on the read outcome, as an envelope.
pub fn get_file(file_id: &str, config_service: &ConfigService, read: &ReadOutcome) -> (r:
    ApiResponse<ConfigFile>)
    ensures
        file_id@.len() == 0 ==> r.is_error_with("file id must not be empty"@),
        file_id@.len() > 0 && !is_registered(file_id@) ==> r.is_error_with(
            "file not found: "@ + file_id@,
        ),
        file_id@.len() > 0 && is_registered(file_id@) ==> (*read matches ReadOutcome::Missing {
            path,
        } ==> r.is_error_with("file does not exist: "@ + path@)),
        file_id@.len() > 0 && is_registered(file_id@) ==> (*read matches ReadOutcome::Unreadable {
            path,
            detail,
        } ==> r.is_error_with("unable to read file "@ + path@ + ": "@ + detail@)),
        file_id@.len() > 0 && is_registered(file_id@) ==> (*read matches ReadOutcome::Content {
            text,
            probe,
        } ==> (r.is_data_only() && (r.data matches Some(f) && exists|i: int|
            0 <= i < REGISTRY_LEN && entry_id(i) == file_id@ && detail_matches(
                f,
                i,
                text@,
                probe,
            )))),
{
    if file_id.is_empty() {
        return ApiResponse::error(String::from_str("file id must not be empty"));
    }
    match config_service.get_file_by_id(file_id, read) {
        Ok(f) => ApiResponse::success(f),
        Err(e) => ApiResponse::error(e.message()),
    }
}

/// The file update command: the client error for an empty id, otherwise the
/// service verdict on the write outcome, with the fixed success message.
pub fn update_file(file_id: &str, config_service: &ConfigService, write: &WriteOutcome) -> (r:
    ApiResponse<()>)
    ensures
        file_id@.len() == 0 ==> r.is_error_with("file id must not be empty"@),
        file_id@.len() > 0 && !is_registered(file_id@) ==> r.is_error_with(
            "file not found: "@ + file_id@,
        ),
        file_id@.len() > 0 && is_registered(file_id@) && *write is Written ==> (r.success && (
        r.message matches Some(m) && m@ == "file saved successfully"@) && r.data is Some),
        file_id@.len() > 0 && is_registered(file_id@) ==> (*write matches WriteOutcome::Failed {
            path,
            detail,
        } ==> r.is_error_with("unable to write file "@ + path@ + ": "@ + detail@)),
{
    if file_id.is_empty() {
        return ApiResponse::error(String::from_str("file id must not be empty"));
    }
    match config_service.update_file(file_id, write) {
        Ok(_) => ApiResponse::success_with_message((), String::from_str("file saved successfully")),
        Err(e) => ApiResponse::error(e.message()),
    }
}

/// The backup command: the client error for an empty id, otherwise the
/// service verdict on the copy outcome, as an envelope.
pub fn backup_file(file_id: &str, config_service: &ConfigService, copy: &CopyOutcome) -> (r:
    ApiResponse<BackupFileResponse>)
    ensures
        file_id@.len() == 0 ==> r.is_error_with("file id must not be empty"@),
        file_id@.len() > 0 && !is_registered(file_id@) ==> r.is_error_with(
            "file not found: "@ + file_id@,
        ),
        file_id@.len() > 0 && is_registered(file_id@) ==> (*copy
            matches CopyOutcome::SourceMissing { path } ==> r.is_error_with(
            "file does not exist: "@ + path@,
        )),
        file_id@.len() > 0 && is_registered(file_id@) && *copy is ClockUnavailable
            ==> r.is_error_with("unable to determine the current time"@),
        file_id@.len() > 0 && is_registered(file_id@) ==> (*copy matches CopyOutcome::Failed {
            backup_path,
            detail,
        } ==> r.is_error_with(
            "unable to create backup file "@ + backup_path@ + ": "@ + detail@,
        )),
        file_id@.len() > 0 && is_registered(file_id@) ==> (*copy matches CopyOutcome::Copied {
            backup_path,
        } ==> (r.is_data_only() && (r.data matches Some(b) && b.backup_path@ == backup_path@
            && b.message@ == "backup created successfully"@))),
{
    if file_id.is_empty() {
        return ApiResponse::error(String::from_str("file id must not be empty"));
    }
    match config_service.backup_file(file_id, copy) {
        Ok(b) => ApiResponse::success(b),
        Err(e) => ApiResponse::error(e.message()),
    }
}

/// The system info command: the record built from the host observations, or
/// a failure naming the home directory when none can be determined.
pub fn get_system_info(system_service: &SystemService, env: &HostEnv) -> (r: ApiResponse<
    SystemInfo,
>)
    ensures
        r.success ==> (r.message is None && (r.data matches Some(info) && info.os@ == os_name_spec(
            env.os,
        ) && info.kernel@ == kernel_spec(env.os, env.kernel_probe) && info.shell@ == shell_spec(
            env.shell,
        ) && info.user@ == user_spec(env.user))),
        !r.success ==> r.is_error_with(
            "failed to get system info: "@ + "unable to determine the home directory"@,
        ),
{
    match system_service.get_system_info(env) {
        Ok(info) => ApiResponse::success(info),
        Err(e) => ApiResponse::error(
            String::from_str("failed to get system info: ").concat(e.message().as_str()),
        ),
    }
}

} // verus!
