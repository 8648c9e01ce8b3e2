//! The file access service: listing with live metadata, detail, update and
//! backup decisions. Filesystem work happens outside the library; the service
//! receives each outcome as a plain value and is verified for every value.

use vstd::prelude::*;
use vstd::string::{StrSliceExecFns, StringExecFns};

use crate::errors::ConfigError;
use crate::models::{
    BackupFileResponse, ConfigCategory, ConfigFile, CopyOutcome, FileProbe, ReadOutcome,
    WriteOutcome,
};
use crate::paths::{backup_destination_at, resolve_path, resolved_spec};
use crate::platform::{home_dir_string, utc_now_parts};
use crate::registry::{
    category_matches, entry_id, entry_matches, entry_path, entry_static_matches, find_entry_index,
    is_registered, lemma_registry_ids_unique, registry_entry, category_table, CATEGORY_LEN,
    REGISTRY_LEN,
};
use crate::timefmt::{timestamp_spec, UtcParts};

verus! {

/// How many of the first `n` probes found their path: the length of the
/// listing built from them, and the listing position of each reachable entry.
pub open spec fn present_count(probes: Seq<Option<FileProbe>>, n: int) -> int
    decreases n,
{
    if n <= 0 {
        0
    } else {
        present_count(probes, n - 1) + (if probes[n - 1] is Some {
            1int
        } else {
            0int
        })
    }
}

/// `f` is registry entry `i` refreshed with the live metadata of `p`.
pub open spec fn probed_matches(f: ConfigFile, i: int, p: FileProbe) -> bool {
    &&& entry_static_matches(f, i)
    &&& f.last_modified == p.modified
    &&& f.size == p.size
    &&& f.is_symlink == p.is_symlink
    &&& f.backup_exists == p.backup_exists
    &&& f.content is None
}

/// `out` is exactly the listing the probes describe: one record per probed
/// entry, in registry order, each refreshed from its probe; entries whose
/// probe failed are dropped.
pub open spec fn listing_matches(out: Seq<ConfigFile>, probes: Seq<Option<FileProbe>>) -> bool {
    &&& out.len() == present_count(probes, REGISTRY_LEN as int)
    &&& forall|i: int|
        0 <= i < REGISTRY_LEN ==> ((#[trigger] probes[i]) matches Some(p) ==> probed_matches(
            out[present_count(probes, i)],
            i,
            p,
        ))
}

/// `f` is registry entry `i` served as a detail record: content present, the
/// post-read metadata applied where the stat succeeded and left at defaults
/// where it failed.
pub open spec fn detail_matches(
    f: ConfigFile,
    i: int,
    text: Seq<char>,
    probe: Option<FileProbe>,
) -> bool {
    &&& entry_static_matches(f, i)
    &&& f.content matches Some(c) && c@ == text
    &&& probe matches Some(p) ==> f.last_modified == p.modified && f.size == p.size
        && f.is_symlink == p.is_symlink
    &&& probe is None ==> f.last_modified == 0 && f.size == 0 && !f.is_symlink
    &&& !f.backup_exists
}

/// Every position of `v` holds the resolved path of the same-index registry
/// entry under home directory `h`.
pub open spec fn all_resolved(v: Seq<String>, h: Seq<char>) -> bool {
    forall|i: int|
        0 <= i < REGISTRY_LEN ==> (#[trigger] v[i])@ == resolved_spec(entry_path(i), h)
}

/// The configuration file service.
pub struct ConfigService;

impl ConfigService {
    pub fn new() -> ConfigService {
        ConfigService
    }

    /// The six fixed categories, independent of any state.
    pub fn get_categories(&self) -> (r: Vec<ConfigCategory>)
        ensures
            r@.len() == CATEGORY_LEN,
            forall|i: int| 0 <= i < CATEGORY_LEN ==> category_matches(#[trigger] r@[i], i),
    {
        category_table()
    }

    /// The resolved path of every registry entry, in registry order, under
    /// the current user's home directory; fails only when no home directory
    /// can be determined.
    pub fn resolve_all_paths(&self) -> (r: Result<Vec<String>, ConfigError>)
        ensures
            r matches Err(e) ==> e is HomeUnavailable,
            r matches Ok(v) ==> v@.len() == REGISTRY_LEN && exists|h: Seq<char>|
                #[trigger] all_resolved(v@, h),
    {
        match home_dir_string() {
            None => Err(ConfigError::HomeUnavailable),
            Some(home) => {
                let mut out: Vec<String> = Vec::new();
                let mut i: usize = 0;
                while i < REGISTRY_LEN
                    invariant
                        i <= REGISTRY_LEN,
                        out@.len() == i,
                        forall|k: int|
                            0 <= k < i ==> (#[trigger] out@[k])@ == resolved_spec(
                                entry_path(k),
                                home@,
                            ),
                    decreases REGISTRY_LEN - i,
                {
                    let e = registry_entry(i);
                    out.push(resolve_path(e.path.as_str(), home.as_str()));
                    i += 1;
                }
                proof {
                    assert(all_resolved(out@, home@));
                }
                Ok(out)
            },
        }
    }

    /// The listing built from the given per-entry probe results: reachable
    /// entries only, refreshed, in registry order. Fails only when no home
    /// directory can be determined.
    pub fn get_files(&self, probes: &Vec<Option<FileProbe>>) -> (r: Result<
        Vec<ConfigFile>,
        ConfigError,
    >)
        requires
            probes@.len() == REGISTRY_LEN,
        ensures
            r matches Err(e) ==> e is HomeUnavailable,
            r matches Ok(out) ==> listing_matches(out@, probes@),
    {
        match home_dir_string() {
            None => Err(ConfigError::HomeUnavailable),
            Some(_home) => {
                let mut out: Vec<ConfigFile> = Vec::new();
                let mut i: usize = 0;
                while i < REGISTRY_LEN
                    invariant
                        probes@.len() == REGISTRY_LEN,
                        i <= REGISTRY_LEN,
                        out@.len() == present_count(probes@, i as int),
                        forall|k: int|
                            0 <= k < i ==> ((#[trigger] probes@[k]) matches Some(p)
                                ==> probed_matches(out@[present_count(probes@, k)], k, p)),
                    decreases REGISTRY_LEN - i,
                {
                    proof {
                        assert forall|k: int|
                            0 <= k < i && (#[trigger] probes@[k]) is Some implies 0
                            <= present_count(probes@, k) < present_count(probes@, i as int) by {
                            lemma_present_count_monotone(probes@, 0, k);
                            lemma_present_count_monotone(probes@, k + 1, i as int);
                        }
                    }
                    match probes[i] {
                        Some(p) => {
                            let mut f = registry_entry(i);
                            f.last_modified = p.modified;
                            f.size = p.size;
                            f.is_symlink = p.is_symlink;
                            f.backup_exists = p.backup_exists;
                            out.push(f);
                        },
                        None => {},
                    }
                    i += 1;
                }
                Ok(out)
            },
        }
    }

    /// The resolved path of the registry entry named by `file_id`: the first
    /// step of the detail, update and backup flows. An empty id is the client
    /// error, rejected before anything else is consulted.
    pub fn resolve_file_path(&self, file_id: &str) -> (r: Result<String, ConfigError>)
        ensures
            file_id@.len() == 0 ==> r matches Err(ConfigError::EmptyId),
            r matches Err(e) ==> (e is EmptyId && file_id@.len() == 0) || e is HomeUnavailable || (
            e matches ConfigError::UnknownId { id } && id@ == file_id@ && !is_registered(
                file_id@,
            )),
            file_id@.len() > 0 && is_registered(file_id@) ==> r is Ok || r matches Err(
                ConfigError::HomeUnavailable,
            ),
            r matches Ok(p) ==> is_registered(file_id@) && exists|i: int, h: Seq<char>|
                0 <= i < REGISTRY_LEN && entry_id(i) == file_id@ && p@ == resolved_spec(
                    entry_path(i),
                    h,
                ),
    {
        if file_id.is_empty() {
            return Err(ConfigError::EmptyId);
        }
        match home_dir_string() {
            None => Err(ConfigError::HomeUnavailable),
            Some(home) => match find_entry_index(file_id) {
                None => Err(ConfigError::UnknownId { id: String::from_str(file_id) }),
                Some(i) => {
                    let e = registry_entry(i);
                    let p = resolve_path(e.path.as_str(), home.as_str());
                    proof {
                        assert((i as int) < REGISTRY_LEN && entry_id(i as int) == file_id@ && p@
                            == resolved_spec(entry_path(i as int), home@));
                    }
                    Ok(p)
                },
            },
        }
    }

    /// The detail record for `file_id`, given what reading its resolved path
    /// produced: the exact text read, with metadata from the post-read stat.
    pub fn get_file_by_id(&self, file_id: &str, read: &ReadOutcome) -> (r: Result<
        ConfigFile,
        ConfigError,
    >)
        ensures
            !is_registered(file_id@) ==> (r matches Err(ConfigError::UnknownId { id }) && id@
                == file_id@),
            is_registered(file_id@) ==> (*read matches ReadOutcome::Missing { path } ==> (
            r matches Err(ConfigError::MissingPath { path: rp }) && rp@ == path@)),
            is_registered(file_id@) ==> (*read matches ReadOutcome::Unreadable { path, detail }
                ==> (r matches Err(ConfigError::ReadFailed { path: rp, detail: rd }) && rp@
                == path@ && rd@ == detail@)),
            is_registered(file_id@) ==> (*read matches ReadOutcome::Content { text, probe } ==> (
            r matches Ok(f) && exists|i: int|
                0 <= i < REGISTRY_LEN && entry_id(i) == file_id@ && detail_matches(
                    f,
                    i,
                    text@,
                    probe,
                ))),
    {
        match find_entry_index(file_id) {
            None => Err(ConfigError::UnknownId { id: String::from_str(file_id) }),
            Some(i) => match read {
                ReadOutcome::Missing { path } => Err(
                    ConfigError::MissingPath { path: path.clone() },
                ),
                ReadOutcome::Unreadable { path, detail } => Err(
                    ConfigError::ReadFailed { path: path.clone(), detail: detail.clone() },
                ),
                ReadOutcome::Content { text, probe } => {
                    let mut f = registry_entry(i);
                    match probe {
                        Some(p) => {
                            f.last_modified = p.modified;
                            f.size = p.size;
                            f.is_symlink = p.is_symlink;
                        },
                        None => {},
                    }
                    f.content = Some(text.clone());
                    proof {
                        assert((i as int) < REGISTRY_LEN && entry_id(i as int) == file_id@);
                    }
                    Ok(f)
                },
            },
        }
    }

    /// The update verdict for `file_id`, given what overwriting its resolved
    /// path produced. The content itself passes through the caller to the
    /// filesystem untouched; the service only classifies the outcome.
    pub fn update_file(&self, file_id: &str, write: &WriteOutcome) -> (r: Result<(), ConfigError>)
        ensures
            !is_registered(file_id@) ==> (r matches Err(ConfigError::UnknownId { id }) && id@
                == file_id@),
            is_registered(file_id@) && *write is Written ==> r is Ok,
            is_registered(file_id@) ==> (*write matches WriteOutcome::Failed { path, detail } ==> (
            r matches Err(ConfigError::WriteFailed { path: rp, detail: rd }) && rp@ == path@ && rd@
                == detail@)),
    {
        match find_entry_index(file_id) {
            None => Err(ConfigError::UnknownId { id: String::from_str(file_id) }),
            Some(_i) => match write {
                WriteOutcome::Written => Ok(()),
                WriteOutcome::Failed { path, detail } => Err(
                    ConfigError::WriteFailed { path: path.clone(), detail: detail.clone() },
                ),
            },
        }
    }

    /// The destination the next backup of `resolved` is copied to: the
    /// resolved path with a `.backup.` suffix and the current UTC second's
    /// timestamp. Every instant the clock can report names the destination
    /// this way; `None` when the clock cannot report one at all.
    pub fn backup_destination(&self, resolved: &str) -> (r: Option<String>)
        ensures
            r matches Some(s) ==> exists|p: UtcParts|
                p.wf() && s@ == resolved@ + ".backup."@ + #[trigger] timestamp_spec(p),
    {
        match utc_now_parts() {
            None => None,
            Some(stamp) => {
                let s = backup_destination_at(resolved, &stamp);
                proof {
                    assert(stamp.wf() && s@ == resolved@ + ".backup."@ + timestamp_spec(stamp));
                }
                Some(s)
            },
        }
    }

    /// The backup verdict for `file_id`, given what copying its resolved path
    /// to the timestamped destination produced.
    pub fn backup_file(&self, file_id: &str, copy: &CopyOutcome) -> (r: Result<
        BackupFileResponse,
        ConfigError,
    >)
        ensures
            !is_registered(file_id@) ==> (r matches Err(ConfigError::UnknownId { id }) && id@
                == file_id@),
            is_registered(file_id@) ==> (*copy matches CopyOutcome::SourceMissing { path } ==> (
            r matches Err(ConfigError::MissingPath { path: rp }) && rp@ == path@)),
            is_registered(file_id@) && *copy is ClockUnavailable ==> (r matches Err(e) && e
                is ClockUnavailable),
            is_registered(file_id@) ==> (*copy matches CopyOutcome::Failed { backup_path, detail }
                ==> (r matches Err(ConfigError::CopyFailed { backup_path: rb, detail: rd }) && rb@
                == backup_path@ && rd@ == detail@)),
            is_registered(file_id@) ==> (*copy matches CopyOutcome::Copied { backup_path } ==> (
            r matches Ok(b) && b.backup_path@ == backup_path@ && b.message@
                == "backup created successfully"@)),
    {
        match find_entry_index(file_id) {
            None => Err(ConfigError::UnknownId { id: String::from_str(file_id) }),
            Some(_i) => match copy {
                CopyOutcome::SourceMissing { path } => Err(
                    ConfigError::MissingPath { path: path.clone() },
                ),
                CopyOutcome::ClockUnavailable => Err(ConfigError::ClockUnavailable),
                CopyOutcome::Failed { backup_path, detail } => Err(
                    ConfigError::CopyFailed {
                        backup_path: backup_path.clone(),
                        detail: detail.clone(),
                    },
                ),
                CopyOutcome::Copied { backup_path } => Ok(
                    BackupFileResponse {
                        message: String::from_str("backup created successfully"),
                        backup_path: backup_path.clone(),
                    },
                ),
            },
        }
    }
}

/// Counting probed entries over a longer prefix never counts fewer.
pub proof fn lemma_present_count_monotone(probes: Seq<Option<FileProbe>>, m: int, n: int)
    requires
        m <= n,
    ensures
        present_count(probes, m) <= present_count(probes, n),
    decreases n - m,
{
    if m < n {
        lemma_present_count_monotone(probes, m, n - 1);
    }
}

/// Every listing position comes from some probed entry: the positions
/// `0 .. present_count(probes, n)` are exactly the images of the entries
/// whose probe succeeded.
pub proof fn lemma_present_count_surjective(probes: Seq<Option<FileProbe>>, n: int, j: int)
    requires
        0 <= j < present_count(probes, n),
    ensures
        exists|k: int|
            0 <= k < n && #[trigger] probes[k] is Some && present_count(probes, k) == j,
    decreases n,
{
    if n > 0 {
        if probes[n - 1] is Some && j == present_count(probes, n - 1) {
            assert(0 <= n - 1 < n && probes[n - 1] is Some && present_count(probes, n - 1) == j);
        } else {
            lemma_present_count_surjective(probes, n - 1, j);
        }
    }
}

/// A registry entry whose path could not be probed never appears in the
/// listing: no record of the listing carries its id.
pub proof fn lemma_absent_entry_not_listed(
    out: Seq<ConfigFile>,
    probes: Seq<Option<FileProbe>>,
    i: int,
)
    requires
        listing_matches(out, probes),
        0 <= i < REGISTRY_LEN,
        probes[i] is None,
    ensures
        forall|j: int| 0 <= j < out.len() ==> (#[trigger] out[j]).id@ != entry_id(i),
{
    lemma_registry_ids_unique();
    assert forall|j: int| 0 <= j < out.len() implies (#[trigger] out[j]).id@ != entry_id(i) by {
        lemma_present_count_surjective(probes, REGISTRY_LEN as int, j);
        let k = choose|k: int|
            0 <= k < REGISTRY_LEN && #[trigger] probes[k] is Some && present_count(probes, k) == j;
        assert(probes[k] matches Some(p) && probed_matches(out[j], k, p));
        assert(out[j].id@ == entry_id(k));
        assert(k != i);
    }
}

} // verus!
