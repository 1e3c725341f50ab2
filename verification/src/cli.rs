//! What the interactive prompts compute once the typing is done:
//! normalizing the credentials a login or signup collects.

use vstd::prelude::*;
use vstd::string::StrSliceExecFns;
use crate::text;

verus! {

/// A character a slug may contain.
pub open spec fn is_slug_char(c: char) -> bool {
    c == '-' || 97 <= c as u32 <= 122 || 48 <= c as u32 <= 57
}

/// The slug that `slug::slugify` assigns to a text: a function of the
/// characters alone.
pub uninterp spec fn slug_of(s: Seq<char>) -> Seq<char>;

/// Relies on slug::slugify: the result is made of ASCII lower-case
/// letters, digits and dashes, and depends on the input text alone.
#[verifier::external_body]
fn slugify(s: &String) -> (r: String)
    ensures
        r@ == slug_of(s@),
        forall|i: int| 0 <= i < r@.len() ==> is_slug_char(#[trigger] r@[i]),
{
    slug::slugify(s)
}

/// Normalizes what the credential prompts collected: the username is
/// slugified, the password merely trimmed.
pub fn normalize_credentials(username: &String, password: &String) -> (r: (String, String))
    ensures
        r.0@ == slug_of(username@),
        forall|i: int| 0 <= i < r.0@.len() ==> is_slug_char(#[trigger] r.0@[i]),
        r.1@ == text::spec_trim(password@),
{
    let user = slugify(username);
    let pass = text::trim(password.as_str()).to_owned();
    (user, pass)
}

/// Slugifies a requested app name, the way every stored app name is
/// sanitized.
pub fn sanitize_app_name(raw: &String) -> (r: String)
    ensures
        r@ == slug_of(raw@),
        forall|i: int| 0 <= i < r@.len() ==> is_slug_char(#[trigger] r@[i]),
{
    slugify(raw)
}

} // verus!
