//! Reading streamed log lines: each line is `source|text`, and the
//! text may open with an ISO-8601 timestamp that the printer reformats.
//! The timestamp grammar is: four digits, month, day, `T`, time, an
//! optional fraction, and a zone — `Z` or an `HH:MM` offset.

use vstd::prelude::*;
use vstd::string::{StrSliceExecFns, StringExecFns};

verus! {

/// Index of the first `|` at or after `i`, or the length when there is
/// none.
pub open spec fn first_bar(s: Seq<char>, i: int) -> int
    decreases s.len() - i,
{
    if i < 0 || i >= s.len() {
        s.len() as int
    } else if s[i] == '|' {
        i
    } else {
        first_bar(s, i + 1)
    }
}

/// Splits a log line at its first `|` into source and text; a line
/// without one is not a log record and yields nothing.
pub fn split_log_line(line: &String) -> (r: Option<(String, String)>)
    ensures
        first_bar(line@, 0) < line@.len() ==> (r matches Some(p) && p.0@ == line@.subrange(
            0,
            first_bar(line@, 0),
        ) && p.1@ == line@.subrange(first_bar(line@, 0) + 1, line@.len() as int)),
        first_bar(line@, 0) == line@.len() ==> r is None,
{
    let s = line.as_str();
    let len = s.unicode_len();
    let mut i: usize = 0;
    while i < len && s.get_char(i) != '|'
        invariant
            len == s@.len(),
            i <= len,
            first_bar(s@, 0) == first_bar(s@, i as int),
        decreases len - i,
    {
        i = i + 1;
    }
    assert(first_bar(s@, 0) == i);
    if i == len {
        None
    } else {
        let head = s.substring_char(0, i);
        let tail = s.substring_char(i + 1, len);
        Some((head.to_owned(), tail.to_owned()))
    }
}

/// An ASCII digit.
pub open spec fn is_digit(c: char) -> bool {
    48 <= c as u32 <= 57
}

fn digit(c: char) -> (r: bool)
    ensures
        r == is_digit(c),
{
    let u = c as u32;
    48 <= u && u <= 57
}

/// Whether a character sits in the ASCII range `lo..=hi`.
pub open spec fn in_range(c: char, lo: u32, hi: u32) -> bool {
    lo <= c as u32 <= hi
}

/// The fixed head of a timestamp: `DDDD-MD-DDTHD:MD:MD` over nineteen
/// characters, with the leading month, day, hour and minute digits
/// range-limited.
pub open spec fn spec_iso_head(s: Seq<char>) -> bool {
    &&& s.len() >= 19
    &&& is_digit(s[0]) && is_digit(s[1]) && is_digit(s[2]) && is_digit(s[3])
    &&& s[4] == '-'
    &&& in_range(s[5], 48, 49) && is_digit(s[6])
    &&& s[7] == '-'
    &&& in_range(s[8], 48, 51) && is_digit(s[9])
    &&& s[10] == 'T'
    &&& in_range(s[11], 48, 50) && is_digit(s[12])
    &&& s[13] == ':'
    &&& in_range(s[14], 48, 53) && is_digit(s[15])
    &&& s[16] == ':'
    &&& in_range(s[17], 48, 53) && is_digit(s[18])
}

/// Index of the first non-digit at or after `i`.
pub open spec fn digits_end(s: Seq<char>, i: int) -> int
    decreases s.len() - i,
{
    if i < 0 || i >= s.len() {
        s.len() as int
    } else if is_digit(s[i]) {
        digits_end(s, i + 1)
    } else {
        i
    }
}

/// Where the zone part starting at `z` ends: after a `Z`, or after a
/// six-character `+HH:MM` / `-HH:MM` offset; `-1` when neither fits.
pub open spec fn spec_zone_end(s: Seq<char>, z: int) -> int {
    if 0 <= z < s.len() && s[z] == 'Z' {
        z + 1
    } else if 0 <= z && z + 6 <= s.len() && (s[z] == '+' || s[z] == '-') && in_range(
        s[z + 1],
        48,
        50,
    ) && is_digit(s[z + 2]) && s[z + 3] == ':' && in_range(s[z + 4], 48, 53) && is_digit(s[z + 5]) {
        z + 6
    } else {
        -1
    }
}

/// Where the timestamp's optional fraction ends: right after the
/// seconds, unless a dot and at least one digit follow, in which case
/// after the last of those digits.
pub open spec fn spec_frac_end(s: Seq<char>) -> int {
    if s.len() > 20 && s[19] == '.' && is_digit(s[20]) {
        digits_end(s, 20)
    } else {
        19
    }
}

/// Length of the timestamp prefix of `s`, or `-1` when `s` does not
/// open with one.
pub open spec fn spec_iso_prefix_end(s: Seq<char>) -> int {
    if spec_iso_head(s) {
        spec_zone_end(s, spec_frac_end(s))
    } else {
        -1
    }
}

/// Length of the ISO-8601 timestamp that opens `s`, when one does.
pub fn iso_prefix_len(s: &str) -> (r: Option<usize>)
    ensures
        r matches Some(l) ==> l == spec_iso_prefix_end(s@),
        r is None ==> spec_iso_prefix_end(s@) == -1,
{
    let len = s.unicode_len();
    if len < 19 {
        return None;
    }
    let head_ok = digit(s.get_char(0)) && digit(s.get_char(1)) && digit(s.get_char(2)) && digit(
        s.get_char(3),
    ) && s.get_char(4) == '-' && s.get_char(5) as u32 >= 48 && s.get_char(5) as u32 <= 49 && digit(
        s.get_char(6),
    ) && s.get_char(7) == '-' && s.get_char(8) as u32 >= 48 && s.get_char(8) as u32 <= 51 && digit(
        s.get_char(9),
    ) && s.get_char(10) == 'T' && s.get_char(11) as u32 >= 48 && s.get_char(11) as u32 <= 50
        && digit(s.get_char(12)) && s.get_char(13) == ':' && s.get_char(14) as u32 >= 48
        && s.get_char(14) as u32 <= 53 && digit(s.get_char(15)) && s.get_char(16) == ':'
        && s.get_char(17) as u32 >= 48 && s.get_char(17) as u32 <= 53 && digit(s.get_char(18));
    if !head_ok {
        return None;
    }
    let mut z: usize = 19;
    if 20 < len && s.get_char(19) == '.' && digit(s.get_char(20)) {
        let mut f: usize = 20;
        while f < len && digit(s.get_char(f))
            invariant
                len == s@.len(),
                20 <= f <= len,
                digits_end(s@, 20) == digits_end(s@, f as int),
            decreases len - f,
        {
            f = f + 1;
        }
        assert(digits_end(s@, 20) == f);
        z = f;
    }
    assert(z == spec_frac_end(s@));
    if z < len && s.get_char(z) == 'Z' {
        Some(z + 1)
    } else if len - z >= 6 && (s.get_char(z) == '+' || s.get_char(z) == '-') && s.get_char(z + 1)
        as u32 >= 48 && s.get_char(z + 1) as u32 <= 50 && digit(s.get_char(z + 2)) && s.get_char(
        z + 3,
    ) == ':' && s.get_char(z + 4) as u32 >= 48 && s.get_char(z + 4) as u32 <= 53 && digit(
        s.get_char(z + 5),
    ) {
        Some(z + 6)
    } else {
        None
    }
}

/// Splits a log text at the end of its timestamp: the stamp itself,
/// and what follows the single separator character after it.
pub fn split_timestamp(text: &String, l: usize) -> (r: (String, String))
    requires
        l <= text@.len(),
    ensures
        r.0@ == text@.subrange(0, l as int),
        l < text@.len() ==> r.1@ == text@.subrange(l + 1, text@.len() as int),
        l == text@.len() ==> r.1@ == Seq::<char>::empty(),
{
    let s = text.as_str();
    let len = s.unicode_len();
    let stamp = s.substring_char(0, l);
    let rest = if l < len {
        s.substring_char(l + 1, len)
    } else {
        s.substring_char(len, len)
    };
    (stamp.to_owned(), rest.to_owned())
}

} // verus!
