//! Validation of the signup form's fields.

use vstd::prelude::*;
use vstd::string::{StrSliceExecFns, StringExecFns};
use crate::error::CommandError;
use crate::text;

verus! {

/// A character a username may contain.
pub open spec fn is_username_char(c: char) -> bool {
    ||| c == '-'
    ||| c == '_'
    ||| 97 <= c as u32 <= 122
    ||| 65 <= c as u32 <= 90
    ||| 48 <= c as u32 <= 57
}

/// A valid username: non-empty, made only of letters, digits, dashes
/// and underscores.
pub open spec fn spec_valid_username(s: Seq<char>) -> bool {
    s.len() > 0 && forall|i: int| 0 <= i < s.len() ==> is_username_char(#[trigger] s[i])
}

/// A valid email: it contains an `@` that is not its last character,
/// and no white space anywhere.
pub open spec fn spec_valid_email(s: Seq<char>) -> bool {
    &&& exists|i: int| 0 <= i < s.len() && s[i] == '@'
    &&& s[s.len() - 1] != '@'
    &&& forall|i: int| 0 <= i < s.len() ==> !text::is_whitespace_char(#[trigger] s[i])
}

/// Trims the typed username and accepts it when only the allowed
/// characters remain; anything else is refused with advice.
pub fn check_username(s: &str) -> (r: Result<String, CommandError>)
    ensures
        spec_valid_username(text::spec_trim(s@)) ==> (r matches Ok(u) && u@ == text::spec_trim(
            s@,
        )),
        !spec_valid_username(text::spec_trim(s@)) ==> (r matches Err(e) && e.message@
            == "Invalid username."@ && e.help@
            == "Username may only contain 'a-z', 'A-Z', '0-9', '-' or '_'."@),
{
    let t = text::trim(s);
    let len = t.unicode_len();
    let mut i: usize = 0;
    let mut ok: bool = len > 0;
    while i < len
        invariant
            len == t@.len(),
            i <= len,
            ok == (len > 0 && forall|j: int| 0 <= j < i ==> is_username_char(#[trigger] t@[j])),
        decreases len - i,
    {
        let c = t.get_char(i);
        let u = c as u32;
        let good = c == '-' || c == '_' || (97 <= u && u <= 122) || (65 <= u && u <= 90) || (48 <= u
            && u <= 57);
        ok = ok && good;
        i = i + 1;
    }
    if ok {
        Ok(t.to_owned())
    } else {
        Err(
            CommandError::with_message_and_help(
                "Invalid username.",
                "Username may only contain 'a-z', 'A-Z', '0-9', '-' or '_'.",
            ),
        )
    }
}

/// Trims the typed email and accepts it when it looks like an address:
/// an `@` not at the end, and no white space.
pub fn check_email(s: &str) -> (r: Result<String, CommandError>)
    ensures
        spec_valid_email(text::spec_trim(s@)) ==> (r matches Ok(u) && u@ == text::spec_trim(s@)),
        !spec_valid_email(text::spec_trim(s@)) ==> (r matches Err(e) && e.message@
            == "Invalid email."@ && e.help@ == Seq::<char>::empty()),
{
    let t = text::trim(s);
    let len = t.unicode_len();
    let mut i: usize = 0;
    let mut has_at: bool = false;
    let mut has_ws: bool = false;
    while i < len
        invariant
            len == t@.len(),
            i <= len,
            has_at == exists|j: int| 0 <= j < i && t@[j] == '@',
            has_ws == !(forall|j: int| 0 <= j < i ==> !text::is_whitespace_char(#[trigger] t@[j])),
        decreases len - i,
    {
        let c = t.get_char(i);
        if c == '@' {
            has_at = true;
        }
        if text::is_whitespace(c) {
            has_ws = true;
        }
        i = i + 1;
    }
    let ok = has_at && !has_ws && t.get_char(len - 1) != '@';
    if ok {
        Ok(t.to_owned())
    } else {
        Err(CommandError::with_message("Invalid email."))
    }
}

} // verus!
