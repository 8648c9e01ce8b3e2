//! The system info reporter: turns what the surrounding process observed —
//! build-time OS family, environment variables, the raw kernel version probe
//! output — into the served record, with fixed fallbacks for everything the
//! environment did not supply.

use vstd::prelude::*;
use vstd::string::StringExecFns;

use crate::errors::ConfigError;
use crate::models::SystemInfo;
use crate::platform::home_dir_string;
use crate::text::{trim, trim_spec};

verus! {

/// The operating-system family the program was built for: a static property
/// of the build, not a runtime probe.
#[derive(Debug, Clone, Copy, PartialEq, Eq, Structural)]
pub enum OsFamily {
    Linux,
    MacOs,
    Windows,
    Other,
}

/// What one run of the kernel version probe process produced: whether it
/// exited successfully, and its standard output where that decoded as text.
#[derive(Debug, Clone)]
pub struct KernelProbeResult {
    pub exit_ok: bool,
    pub stdout: Option<String>,
}

/// What the surrounding process observed about its host: the build target's
/// OS family, the `USER` and `SHELL` environment variables if set, and the
/// kernel version probe's result if that process could be spawned at all.
#[derive(Debug, Clone)]
pub struct HostEnv {
    pub os: OsFamily,
    pub user: Option<String>,
    pub shell: Option<String>,
    pub kernel_probe: Option<KernelProbeResult>,
}

/// The display name of each OS family.
pub open spec fn os_name_spec(os: OsFamily) -> Seq<char> {
    match os {
        OsFamily::Linux => "Linux"@,
        OsFamily::MacOs => "macOS"@,
        OsFamily::Windows => "Windows"@,
        OsFamily::Other => "Unknown"@,
    }
}

/// The served kernel field: the probe's standard output trimmed of
/// surrounding whitespace, but only on the Linux family and only when the
/// probe ran, exited successfully and printed text; `"Unknown"`
/// unconditionally in every other case — other families, a probe that could
/// not be spawned, a non-zero exit, or non-text output.
pub open spec fn kernel_spec(os: OsFamily, probe: Option<KernelProbeResult>) -> Seq<char> {
    match probe {
        Some(p) => match p.stdout {
            Some(s) => if os is Linux && p.exit_ok {
                trim_spec(s@)
            } else {
                "Unknown"@
            },
            None => "Unknown"@,
        },
        None => "Unknown"@,
    }
}

/// The served user field: the `USER` variable, or `"unknown"` when unset.
pub open spec fn user_spec(user: Option<String>) -> Seq<char> {
    match user {
        Some(u) => u@,
        None => "unknown"@,
    }
}

/// The served shell field: the `SHELL` variable, or `"/bin/bash"` when unset.
pub open spec fn shell_spec(shell: Option<String>) -> Seq<char> {
    match shell {
        Some(s) => s@,
        None => "/bin/bash"@,
    }
}

/// The system info record served for home directory `home` and host
/// observations `env`.
pub fn build_system_info(home: &str, env: &HostEnv) -> (r: SystemInfo)
    ensures
        r.os@ == os_name_spec(env.os),
        r.kernel@ == kernel_spec(env.os, env.kernel_probe),
        r.shell@ == shell_spec(env.shell),
        r.user@ == user_spec(env.user),
        r.home_dir@ == home@,
{
    let os = match env.os {
        OsFamily::Linux => String::from_str("Linux"),
        OsFamily::MacOs => String::from_str("macOS"),
        OsFamily::Windows => String::from_str("Windows"),
        OsFamily::Other => String::from_str("Unknown"),
    };
    let kernel = match &env.kernel_probe {
        Some(p) => match &p.stdout {
            Some(s) => match env.os {
                OsFamily::Linux => if p.exit_ok {
                    String::from_str(trim(s.as_str()))
                } else {
                    String::from_str("Unknown")
                },
                _ => String::from_str("Unknown"),
            },
            None => String::from_str("Unknown"),
        },
        None => String::from_str("Unknown"),
    };
    let user = match &env.user {
        Some(u) => u.clone(),
        None => String::from_str("unknown"),
    };
    let shell = match &env.shell {
        Some(s) => s.clone(),
        None => String::from_str("/bin/bash"),
    };
    SystemInfo { os, kernel, shell, home_dir: String::from_str(home), user }
}

/// The system information service.
pub struct SystemService;

impl SystemService {
    pub fn new() -> SystemService {
        SystemService
    }

    /// The system info record under the current user's home directory; fails
    /// only when no home directory can be determined.
    pub fn get_system_info(&self, env: &HostEnv) -> (r: Result<SystemInfo, ConfigError>)
        ensures
            r matches Err(e) ==> e is HomeUnavailable,
            r matches Ok(info) ==> (info.os@ == os_name_spec(env.os) && info.kernel@ == kernel_spec(
                env.os,
                env.kernel_probe,
            ) && info.shell@ == shell_spec(env.shell) && info.user@ == user_spec(env.user)),
    {
        match home_dir_string() {
            None => Err(ConfigError::HomeUnavailable),
            Some(home) => Ok(build_system_info(home.as_str(), env)),
        }
    }
}

} // verus!
