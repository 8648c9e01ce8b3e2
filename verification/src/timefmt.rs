//! Verified formatting of backup timestamps: a UTC instant, broken into its
//! calendar fields, rendered as `YYYYMMDD-HHMMSS` with zero-padded decimal
//! numbers.

use vstd::prelude::*;
use vstd::string::{StrSliceExecFns, StringExecFns};

verus! {

/// A UTC instant broken into calendar fields.
#[derive(Debug, Clone, Copy)]
pub struct UtcParts {
    pub year: i32,
    pub month: u32,
    pub day: u32,
    pub hour: u32,
    pub minute: u32,
    pub second: u32,
}

impl UtcParts {
    /// The field ranges of a real calendar instant.
    pub open spec fn wf(&self) -> bool {
        &&& 1 <= self.month <= 12
        &&& 1 <= self.day <= 31
        &&& self.hour <= 23
        &&& self.minute <= 59
        &&& self.second <= 59
    }
}

/// The decimal digit character for `d`.
pub open spec fn digit(d: int) -> char {
    if d == 0 {
        '0'
    } else if d == 1 {
        '1'
    } else if d == 2 {
        '2'
    } else if d == 3 {
        '3'
    } else if d == 4 {
        '4'
    } else if d == 5 {
        '5'
    } else if d == 6 {
        '6'
    } else if d == 7 {
        '7'
    } else if d == 8 {
        '8'
    } else {
        '9'
    }
}

/// The decimal representation of `n`, most significant digit first.
pub open spec fn dec_spec(n: nat) -> Seq<char>
    decreases n,
{
    if n < 10 {
        seq![digit(n as int)]
    } else {
        dec_spec(n / 10).push(digit((n % 10) as int))
    }
}

/// `dec_spec(n)` left-padded with `'0'` to at least `width` characters.
pub open spec fn padded_spec(n: nat, width: int) -> Seq<char>
    decreases width,
{
    if dec_spec(n).len() >= width {
        dec_spec(n)
    } else {
        seq!['0'] + padded_spec(n, width - 1)
    }
}

/// The year field as four or more characters, with a sign for negative years.
pub open spec fn year_spec(y: int) -> Seq<char> {
    if y < 0 {
        seq!['-'] + padded_spec((-y) as nat, 4)
    } else {
        padded_spec(y as nat, 4)
    }
}

/// The whole `YYYYMMDD-HHMMSS` timestamp of one instant.
pub open spec fn timestamp_spec(p: UtcParts) -> Seq<char> {
    year_spec(p.year as int) + padded_spec(p.month as nat, 2) + padded_spec(p.day as nat, 2)
        + seq!['-'] + padded_spec(p.hour as nat, 2) + padded_spec(p.minute as nat, 2)
        + padded_spec(p.second as nat, 2)
}

fn digit_str(d: u64) -> (r: &'static str)
    requires
        d < 10,
    ensures
        r@ =~= seq![digit(d as int)],
{
    proof {
        reveal_strlit("0");
        reveal_strlit("1");
        reveal_strlit("2");
        reveal_strlit("3");
        reveal_strlit("4");
        reveal_strlit("5");
        reveal_strlit("6");
        reveal_strlit("7");
        reveal_strlit("8");
        reveal_strlit("9");
    }
    match d {
        0 => "0",
        1 => "1",
        2 => "2",
        3 => "3",
        4 => "4",
        5 => "5",
        6 => "6",
        7 => "7",
        8 => "8",
        _ => "9",
    }
}

/// The decimal representation of `n`.
pub fn decimal(n: u64) -> (r: String)
    ensures
        r@ == dec_spec(n as nat),
    decreases n,
{
    if n < 10 {
        String::from_str(digit_str(n))
    } else {
        let head = decimal(n / 10);
        let r = head.concat(digit_str(n % 10));
        proof {
            assert(r@ =~= dec_spec((n / 10) as nat).push(digit((n % 10) as int)));
        }
        r
    }
}

/// `n` in decimal, left-padded with zeros to at least `width` characters.
pub fn padded(n: u64, width: usize) -> (r: String)
    requires
        width <= 4,
    ensures
        r@ == padded_spec(n as nat, width as int),
    decreases width,
{
    let plain = decimal(n);
    proof {
        reveal_strlit("0");
    }
    if plain.as_str().unicode_len() >= width {
        plain
    } else {
        let tail = padded(n, width - 1);
        let r = String::from_str("0").concat(tail.as_str());
        proof {
            assert(r@ =~= seq!['0'] + padded_spec(n as nat, width - 1));
        }
        r
    }
}

/// The timestamp of `p`, as it appears in a backup file name.
pub fn format_timestamp(p: &UtcParts) -> (r: String)
    requires
        p.wf(),
    ensures
        r@ == timestamp_spec(*p),
{
    let year: String = if p.year < 0 {
        let magnitude: u64 = (-(p.year as i64)) as u64;
        let r = String::from_str("-").concat(padded(magnitude, 4).as_str());
        proof {
            reveal_strlit("-");
            assert(r@ =~= year_spec(p.year as int));
        }
        r
    } else {
        padded(p.year as u64, 4)
    };
    let r = year
        .concat(padded(p.month as u64, 2).as_str())
        .concat(padded(p.day as u64, 2).as_str())
        .concat("-")
        .concat(padded(p.hour as u64, 2).as_str())
        .concat(padded(p.minute as u64, 2).as_str())
        .concat(padded(p.second as u64, 2).as_str());
    proof {
        reveal_strlit("-");
        assert(r@ =~= timestamp_spec(*p));
    }
    r
}

} // verus!
