//! Environment variables of an app: a plain value, or a reference to a
//! named secret.

use vstd::prelude::*;
use vstd::string::StringExecFns;

verus! {

/// An environment variable's content.
#[derive(Clone, PartialEq, Eq, Debug)]
pub enum EnvVar {
    /// A literal value.
    Value(String),
    /// The name of a secret whose value is substituted at deploy time.
    Secret(String),
}

impl EnvVar {
    /// Builds the variable the `env set` command stores: a secret
    /// reference when the secret flag was given, a plain value
    /// otherwise.
    pub fn new(from_secret: bool, value: &String) -> (v: EnvVar)
        ensures
            from_secret ==> (v matches EnvVar::Secret(s) && s@ == value@),
            !from_secret ==> (v matches EnvVar::Value(s) && s@ == value@),
    {
        if from_secret {
            EnvVar::Secret(value.clone())
        } else {
            EnvVar::Value(value.clone())
        }
    }

    /// The text the `env list` table shows for this variable.
    pub fn display_text(&self) -> (r: String)
        ensures
            match *self {
                EnvVar::Value(ref v) => r@ == v@,
                EnvVar::Secret(ref s) => r@ == "secret: "@ + s@,
            },
    {
        match self {
            EnvVar::Value(v) => v.clone(),
            EnvVar::Secret(s) => "secret: ".to_owned().concat(s.as_str()),
        }
    }
}

} // verus!
