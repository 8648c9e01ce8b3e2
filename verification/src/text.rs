//! Verified character-level string helpers: equality of string slices and
//! whitespace trimming, each proved against a direct specification over the
//! string's view.

use vstd::prelude::*;
use vstd::string::StrSliceExecFns;

verus! {

/// Whether two string slices hold the same characters.
pub fn str_eq(a: &str, b: &str) -> (r: bool)
    ensures
        r == (a@ == b@),
{
    let n = a.unicode_len();
    if n != b.unicode_len() {
        proof {
            assert(a@.len() != b@.len());
        }
        return false;
    }
    let mut i: usize = 0;
    while i < n
        invariant
            n == a@.len(),
            n == b@.len(),
            i <= n,
            forall|k: int| 0 <= k < i ==> a@[k] == b@[k],
        decreases n - i,
    {
        if a.get_char(i) != b.get_char(i) {
            proof {
                assert(a@[i as int] != b@[i as int]);
            }
            return false;
        }
        i += 1;
    }
    proof {
        assert(a@ =~= b@);
    }
    true
}

/// The whitespace characters recognized by trimming: the ASCII ones that
/// appear around command output and file text.
pub open spec fn is_space(c: char) -> bool {
    c == ' ' || c == '\t' || c == '\n' || c == '\r' || c == '\u{b}' || c == '\u{c}'
}

/// `s` with its leading whitespace characters removed.
pub open spec fn trim_front_spec(s: Seq<char>) -> Seq<char>
    decreases s.len(),
{
    if s.len() > 0 && is_space(s[0]) {
        trim_front_spec(s.subrange(1, s.len() as int))
    } else {
        s
    }
}

/// `s` with its trailing whitespace characters removed.
pub open spec fn trim_back_spec(s: Seq<char>) -> Seq<char>
    decreases s.len(),
{
    if s.len() > 0 && is_space(s[s.len() - 1]) {
        trim_back_spec(s.subrange(0, s.len() - 1))
    } else {
        s
    }
}

/// `s` with surrounding whitespace characters removed.
pub open spec fn trim_spec(s: Seq<char>) -> Seq<char> {
    trim_back_spec(trim_front_spec(s))
}

fn space_char(c: char) -> (r: bool)
    ensures
        r == is_space(c),
{
    c == ' ' || c == '\t' || c == '\n' || c == '\r' || c == '\u{b}' || c == '\u{c}'
}

fn trim_front(s: &str) -> (r: &str)
    ensures
        r@ == trim_front_spec(s@),
    decreases s@.len(),
{
    let n = s.unicode_len();
    if n > 0 && space_char(s.get_char(0)) {
        trim_front(s.substring_char(1, n))
    } else {
        s
    }
}

fn trim_back(s: &str) -> (r: &str)
    ensures
        r@ == trim_back_spec(s@),
    decreases s@.len(),
{
    let n = s.unicode_len();
    if n > 0 && space_char(s.get_char(n - 1)) {
        trim_back(s.substring_char(0, n - 1))
    } else {
        s
    }
}

/// `s` without surrounding ASCII whitespace: exactly the characters of
/// `is_space` are removed, which covers ordinary command output;
/// Unicode-only whitespace is kept.
pub fn trim(s: &str) -> (r: &str)
    ensures
        r@ == trim_spec(s@),
{
    trim_back(trim_front(s))
}

} // verus!
