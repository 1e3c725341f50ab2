//! The restart policy of an app, and its wire form: a policy is stored
//! as the string `"never"` or `"always"`, or as a bare retry count.

use vstd::prelude::*;
use crate::text;

verus! {

/// When the service restarts an app's container.
#[derive(Clone, Copy, PartialEq, Eq, Structural, Debug)]
pub enum RestartPolicy {
    Never,
    Always,
    OnFailure(u64),
}

impl Default for RestartPolicy {
    /// An unspecified policy means: restart up to three times on
    /// failure.
    fn default() -> (r: RestartPolicy)
        ensures
            r == RestartPolicy::OnFailure(3u64),
    {
        RestartPolicy::OnFailure(3)
    }
}

/// What a policy looks like in the app descriptor: a name or a count.
#[derive(PartialEq, Eq, Debug)]
pub enum RestartPolicyWire {
    Name(String),
    Count(u64),
}

impl RestartPolicy {
    /// The wire form this policy serializes to.
    pub fn to_wire(&self) -> (w: RestartPolicyWire)
        ensures
            match *self {
                RestartPolicy::Never => w matches RestartPolicyWire::Name(s) && s@ == "never"@,
                RestartPolicy::Always => w matches RestartPolicyWire::Name(s) && s@ == "always"@,
                RestartPolicy::OnFailure(t) => w == RestartPolicyWire::Count(t),
            },
    {
        match self {
            RestartPolicy::Never => RestartPolicyWire::Name("never".to_owned()),
            RestartPolicy::Always => RestartPolicyWire::Name("always".to_owned()),
            RestartPolicy::OnFailure(t) => RestartPolicyWire::Count(*t),
        }
    }

    /// Reads a policy back from its lower-cased name; anything but
    /// `"never"` or `"always"` is rejected.
    pub fn from_name(s: &str) -> (r: Option<RestartPolicy>)
        ensures
            s@ == "never"@ ==> r == Some(RestartPolicy::Never),
            s@ == "always"@ ==> r == Some(RestartPolicy::Always),
            s@ != "never"@ && s@ != "always"@ ==> r is None,
    {
        proof {
            reveal_strlit("never");
            reveal_strlit("always");
            assert("never"@.len() == 5);
            assert("always"@.len() == 6);
        }
        if text::str_eq(s, "never") {
            Some(RestartPolicy::Never)
        } else if text::str_eq(s, "always") {
            Some(RestartPolicy::Always)
        } else {
            None
        }
    }

    /// Reads a policy back from its wire form: a known name, or any
    /// count taken as the on-failure retry limit.
    pub fn from_wire(w: &RestartPolicyWire) -> (r: Option<RestartPolicy>)
        ensures
            match *w {
                RestartPolicyWire::Name(ref s) => r == (if s@ == "never"@ {
                    Some(RestartPolicy::Never)
                } else if s@ == "always"@ {
                    Some(RestartPolicy::Always)
                } else {
                    None::<RestartPolicy>
                }),
                RestartPolicyWire::Count(t) => r == Some(RestartPolicy::OnFailure(t)),
            },
    {
        match w {
            RestartPolicyWire::Name(s) => RestartPolicy::from_name(s.as_str()),
            RestartPolicyWire::Count(t) => Some(RestartPolicy::OnFailure(*t)),
        }
    }
}

} // verus!
