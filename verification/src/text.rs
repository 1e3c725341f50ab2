//! Small verified text utilities: equality, whitespace trimming, and
//! shortening a string with an ellipsis.

use vstd::prelude::*;
use vstd::string::{StrSliceExecFns, StringExecFns, StringSliceAdditionalSpecFns};

verus! {

/// The Unicode white-space characters, the set `char::is_whitespace`
/// recognizes.
pub open spec fn is_whitespace_char(c: char) -> bool {
    ||| 0x9 <= c as u32 <= 0xD
    ||| c as u32 == 0x20
    ||| c as u32 == 0x85
    ||| c as u32 == 0xA0
    ||| c as u32 == 0x1680
    ||| 0x2000 <= c as u32 <= 0x200A
    ||| c as u32 == 0x2028
    ||| c as u32 == 0x2029
    ||| c as u32 == 0x202F
    ||| c as u32 == 0x205F
    ||| c as u32 == 0x3000
}

/// Whether `c` is Unicode white space.
pub fn is_whitespace(c: char) -> (r: bool)
    ensures
        r == is_whitespace_char(c),
{
    let u = c as u32;
    (0x9 <= u && u <= 0xD) || u == 0x20 || u == 0x85 || u == 0xA0 || u == 0x1680 || (0x2000 <= u
        && u <= 0x200A) || u == 0x2028 || u == 0x2029 || u == 0x202F || u == 0x205F || u == 0x3000
}

/// Whether two string slices hold the same characters.
pub fn str_eq(a: &str, b: &str) -> (r: bool)
    ensures
        r == (a@ == b@),
{
    proof {
        vstd::utf8::encode_utf8_decode_utf8(a@);
        vstd::utf8::encode_utf8_decode_utf8(b@);
    }
    let ab = a.as_bytes();
    let bb = b.as_bytes();
    if ab.len() != bb.len() {
        return false;
    }
    let mut i: usize = 0;
    while i < ab.len()
        invariant
            ab@ == a.spec_bytes(),
            bb@ == b.spec_bytes(),
            ab@.len() == bb@.len(),
            i <= ab@.len(),
            forall|j: int| 0 <= j < i ==> ab@[j] == bb@[j],
        decreases ab@.len() - i,
    {
        if ab[i] != bb[i] {
            return false;
        }
        i = i + 1;
    }
    proof {
        assert(a.spec_bytes() =~= b.spec_bytes());
    }
    true
}

/// Index of the first non-white-space character at or after `i`, or the
/// length when everything from `i` on is white space.
pub open spec fn first_non_ws(s: Seq<char>, i: int) -> int
    decreases s.len() - i,
{
    if i < 0 || i >= s.len() {
        s.len() as int
    } else if is_whitespace_char(s[i]) {
        first_non_ws(s, i + 1)
    } else {
        i
    }
}

/// One past the last non-white-space character before `i`, or zero when
/// everything before `i` is white space.
pub open spec fn last_non_ws_end(s: Seq<char>, i: int) -> int
    decreases i,
{
    if i <= 0 || i > s.len() {
        0
    } else if is_whitespace_char(s[i - 1]) {
        last_non_ws_end(s, i - 1)
    } else {
        i
    }
}

/// The characters of `s` with leading and trailing white space removed.
pub open spec fn spec_trim(s: Seq<char>) -> Seq<char> {
    let a = first_non_ws(s, 0);
    let b = last_non_ws_end(s, s.len() as int);
    if a <= b {
        s.subrange(a, b)
    } else {
        Seq::empty()
    }
}

/// Removes leading and trailing white space, as `str::trim` does.
pub fn trim(s: &str) -> (r: &str)
    ensures
        r@ == spec_trim(s@),
{
    let len = s.unicode_len();
    let mut a: usize = 0;
    while a < len && is_whitespace(s.get_char(a))
        invariant
            len == s@.len(),
            a <= len,
            first_non_ws(s@, 0) == first_non_ws(s@, a as int),
            forall|j: int| 0 <= j < a ==> is_whitespace_char(s@[j]),
        decreases len - a,
    {
        a = a + 1;
    }
    assert(first_non_ws(s@, 0) == a);
    if a == len {
        proof {
            assert(last_non_ws_end(s@, s@.len() as int) == 0) by {
                lemma_all_ws_last_end(s@, s@.len() as int);
            }
        }
        return s.substring_char(0, 0);
    }
    let mut b: usize = len;
    while b > a && is_whitespace(s.get_char(b - 1))
        invariant
            len == s@.len(),
            a < len,
            a < b <= len,
            !is_whitespace_char(s@[a as int]),
            last_non_ws_end(s@, len as int) == last_non_ws_end(s@, b as int),
        decreases b,
    {
        b = b - 1;
    }
    assert(last_non_ws_end(s@, len as int) == b);
    s.substring_char(a, b)
}

/// Everything from `i` down is white space, so the trimmed end is zero.
proof fn lemma_all_ws_last_end(s: Seq<char>, i: int)
    requires
        0 <= i <= s.len(),
        forall|j: int| 0 <= j < i ==> is_whitespace_char(s[j]),
    ensures
        last_non_ws_end(s, i) == 0,
    decreases i,
{
    if i > 0 {
        lemma_all_ws_last_end(s, i - 1);
    }
}

/// The UTF-8 length of a character sequence, the `len` that `str::len`
/// reports.
pub open spec fn byte_len(s: Seq<char>) -> nat {
    vstd::utf8::encode_utf8(s).len()
}

/// Shortens `s` to at most `max_len` characters followed by an
/// ellipsis, when its byte length exceeds `max_len`; shorter strings
/// come back unchanged.
pub fn ellipsis(s: &String, max_len: usize) -> (r: String)
    requires
        byte_len(s@) <= usize::MAX,
    ensures
        byte_len(s@) <= max_len ==> r@ == s@,
        byte_len(s@) > max_len && max_len <= s@.len() ==> r@ == s@.subrange(0, max_len as int)
            + "…"@,
        byte_len(s@) > max_len && max_len > s@.len() ==> r@ == s@ + "…"@,
{
    if s.as_str().len() > max_len {
        let cl = s.as_str().unicode_len();
        let take = if max_len < cl {
            max_len
        } else {
            cl
        };
        let prefix = s.as_str().substring_char(0, take);
        let out = prefix.to_owned().concat("…");
        proof {
            assert(prefix@ == s@.subrange(0, take as int));
            if max_len <= s@.len() {
                assert(take == max_len);
            } else {
                assert(take == s@.len());
                assert(s@.subrange(0, s@.len() as int) =~= s@);
            }
        }
        out
    } else {
        s.clone()
    }
}

} // verus!
