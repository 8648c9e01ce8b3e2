//! Path resolution: expansion of the leading home-directory marker in a
//! registered path template, and the two backup-related sibling names — the
//! bare `.backup` sibling the listing probes for, and the timestamped
//! `.backup.<stamp>` destination the backup operation writes to.

use vstd::prelude::*;
use vstd::string::{StrSliceExecFns, StringExecFns};

use crate::timefmt::{format_timestamp, timestamp_spec, UtcParts};

verus! {

/// `template` with a leading `'~'` replaced by `home`; a template without the
/// marker is returned unchanged.
pub open spec fn resolved_spec(template: Seq<char>, home: Seq<char>) -> Seq<char> {
    if template.len() > 0 && template[0] == '~' {
        home + template.subrange(1, template.len() as int)
    } else {
        template
    }
}

/// The resolved form of a path template under the given home directory.
pub fn resolve_path(template: &str, home: &str) -> (r: String)
    ensures
        r@ == resolved_spec(template@, home@),
{
    let n = template.unicode_len();
    if n > 0 && template.get_char(0) == '~' {
        let rest = template.substring_char(1, n);
        String::from_str(home).concat(rest)
    } else {
        String::from_str(template)
    }
}

/// The sibling path whose bare existence the listing reports as
/// `backup_exists`: the resolved path with a fixed `.backup` suffix. The
/// backup operation itself writes timestamped names, which this never
/// matches; the listing flag therefore stays false once only timestamped
/// backups exist.
pub fn backup_probe_path(resolved: &str) -> (r: String)
    ensures
        r@ == resolved@ + ".backup"@,
{
    String::from_str(resolved).concat(".backup")
}

/// The destination a backup taken at instant `stamp` is copied to. Two calls
/// within the same wall-clock second name the same destination, so the later
/// copy overwrites the earlier one.
pub fn backup_destination_at(resolved: &str, stamp: &UtcParts) -> (r: String)
    requires
        stamp.wf(),
    ensures
        r@ == resolved@ + ".backup."@ + timestamp_spec(*stamp),
{
    let r = String::from_str(resolved).concat(".backup.").concat(
        format_timestamp(stamp).as_str(),
    );
    proof {
        assert(r@ =~= resolved@ + ".backup."@ + timestamp_spec(*stamp));
    }
    r
}

/// Two backups of the same file taken within the same wall-clock second name
/// the same destination, so only a single backup artifact remains: the later
/// copy silently overwrites the earlier one.
pub proof fn lemma_same_second_same_destination(resolved: Seq<char>, a: UtcParts, b: UtcParts)
    requires
        a.year == b.year,
        a.month == b.month,
        a.day == b.day,
        a.hour == b.hour,
        a.minute == b.minute,
        a.second == b.second,
    ensures
        resolved + ".backup."@ + timestamp_spec(a) == resolved + ".backup."@ + timestamp_spec(b),
{
    assert(a == b);
}

} // verus!
