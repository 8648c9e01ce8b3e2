//! The two places where the library reaches outside the process: the user's
//! home directory and the current UTC time. Both depend on the environment or
//! the clock, so their contracts state only what holds of every outcome.

use vstd::prelude::*;

use crate::timefmt::UtcParts;

use chrono::{Datelike, Timelike};

verus! {

/// Relies on `dirs::home_dir`: the current user's home directory, if the
/// platform can determine one. The result depends on the environment, so
/// nothing is promised of its value.
#[verifier::external_body]
pub(crate) fn home_dir_string() -> (r: Option<String>) {
    dirs::home_dir().map(|p| p.to_string_lossy().into_owned())
}

/// Relies on `std::time::SystemTime::now` with `duration_since` the Unix
/// epoch, `chrono::DateTime::<Utc>::from_timestamp`, and the `Datelike` /
/// `Timelike` accessors `year`, `month`, `day`, `hour`, `minute` and
/// `second`: the current UTC instant broken into calendar fields, or `None`
/// when the clock stands before the epoch or outside chrono's range — every
/// step is fallible, so no clock state can abort the process. chrono
/// documents the field ranges: month 1 to 12, day 1 to 31, hour 0 to 23,
/// minute and second 0 to 59. The clock decides the values, so nothing more
/// is promised.
#[verifier::external_body]
pub(crate) fn utc_now_parts() -> (r: Option<UtcParts>)
    ensures
        r matches Some(p) ==> p.wf(),
{
    let dur = std::time::SystemTime::now().duration_since(std::time::UNIX_EPOCH).ok()?;
    let secs = i64::try_from(dur.as_secs()).ok()?;
    let now = chrono::DateTime::<chrono::Utc>::from_timestamp(secs, 0)?;
    Some(UtcParts {
        year: now.year(),
        month: now.month(),
        day: now.day(),
        hour: now.hour(),
        minute: now.minute(),
        second: now.second(),
    })
}

} // verus!
