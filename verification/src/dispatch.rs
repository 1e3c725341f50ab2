//! Which subcommands need a login or an app, and the small gate
//! decisions the command runner makes before any request goes out.

use vstd::prelude::*;
use vstd::string::{StringExecFns, StrSliceExecFns};
use crate::error::CommandError;
use crate::text;

verus! {

/// The subcommands that operate on an app directory.
pub open spec fn spec_requires_app(cmd: Seq<char>) -> bool {
    ||| cmd == "delete"@
    ||| cmd == "describe"@
    ||| cmd == "env"@
    ||| cmd == "expose"@
    ||| cmd == "logs"@
    ||| cmd == "secrets"@
    ||| cmd == "tier"@
    ||| cmd == "up"@
}

/// The subcommands that need a stored login token.
pub open spec fn spec_requires_login(cmd: Seq<char>) -> bool {
    cmd == "create"@ || cmd == "list"@ || spec_requires_app(cmd)
}

/// Whether `cmd` operates on an app directory.
pub fn requires_app(cmd: &str) -> (r: bool)
    ensures
        r == spec_requires_app(cmd@),
{
    text::str_eq(cmd, "delete") || text::str_eq(cmd, "describe") || text::str_eq(cmd, "env")
        || text::str_eq(cmd, "expose") || text::str_eq(cmd, "logs") || text::str_eq(cmd, "secrets")
        || text::str_eq(cmd, "tier") || text::str_eq(cmd, "up")
}

/// Whether `cmd` needs a stored login token.
pub fn requires_login(cmd: &str) -> (r: bool)
    ensures
        r == spec_requires_login(cmd@),
{
    text::str_eq(cmd, "create") || text::str_eq(cmd, "list") || requires_app(cmd)
}

/// Refuses a login-needing subcommand when no token is stored; any
/// other combination passes.
pub fn login_gate(cmd: &str, token: &String) -> (r: Result<(), CommandError>)
    ensures
        spec_requires_login(cmd@) && token@.len() == 0 ==> (r matches Err(e) && e.message@
            == "Not logged in. Log in required for "@ + cmd@ && e.help@ == "Run deployc login"@),
        !(spec_requires_login(cmd@) && token@.len() == 0) ==> r is Ok,
{
    if requires_login(cmd) && token.as_str().is_empty() {
        Err(
            CommandError {
                message: "Not logged in. Log in required for ".to_owned().concat(cmd),
                help: "Run deployc login".to_owned(),
            },
        )
    } else {
        Ok(())
    }
}

/// The card check's decision: a missing payment method is an error that
/// points at where to add one.
pub fn check_card(exists: bool) -> (r: Result<(), CommandError>)
    ensures
        exists ==> r is Ok,
        !exists ==> (r matches Err(e) && e.message@ == "Missing payment method."@ && e.help@
            == "Visit https://deployc.io to enter your payment information."@),
{
    if exists {
        Ok(())
    } else {
        Err(
            CommandError::with_message_and_help(
                "Missing payment method.",
                "Visit https://deployc.io to enter your payment information.",
            ),
        )
    }
}

/// Whether the typed confirmation allows deleting the app: the reply,
/// trimmed, must equal the app's name; no reply refuses.
pub fn confirm_delete(response: &Option<String>, name: &String) -> (r: Result<(), CommandError>)
    ensures
        (response matches Some(t) && text::spec_trim(t@) == name@) ==> r is Ok,
        !(response matches Some(t) && text::spec_trim(t@) == name@) ==> (r matches Err(e)
            && e.message@ == "Not deleting app."@ && e.help@ == Seq::<char>::empty()),
{
    match response {
        Some(t) => {
            let trimmed = text::trim(t.as_str());
            if text::str_eq(trimmed, name.as_str()) {
                Ok(())
            } else {
                Err(CommandError::with_message("Not deleting app."))
            }
        },
        None => Err(CommandError::with_message("Not deleting app.")),
    }
}

} // verus!
