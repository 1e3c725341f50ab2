//! The error value that every command returns to the caller.

use vstd::prelude::*;

verus! {

/// A user-facing failure: a message, and an optional help line that is
/// empty when there is no further advice to give.
#[derive(Debug)]
pub struct CommandError {
    pub message: String,
    pub help: String,
}

impl CommandError {
    /// Builds an error that carries a message and no help text.
    pub fn with_message(msg: &str) -> (r: CommandError)
        ensures
            r.message@ == msg@,
            r.help@ == Seq::<char>::empty(),
    {
        CommandError { message: msg.to_owned(), help: String::new() }
    }

    /// Builds an error that carries both a message and a help line.
    pub fn with_message_and_help(msg: &str, help: &str) -> (r: CommandError)
        ensures
            r.message@ == msg@,
            r.help@ == help@,
    {
        CommandError { message: msg.to_owned(), help: help.to_owned() }
    }
}

} // verus!
