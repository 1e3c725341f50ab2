//! The app descriptor: the fields stored in the app's config file, and
//! the port-exposure rule.  Creation times are kept as seconds since
//! the Unix epoch.

use vstd::prelude::*;
use crate::error::CommandError;
use crate::restart_policy::RestartPolicy;
use crate::service::Service;

verus! {

/// Whether a port value is the unset marker; an unset port is omitted
/// from the stored descriptor.
pub fn is_zero(u: &u16) -> (r: bool)
    ensures
        r == (*u == 0),
{
    *u == 0
}

/// An app as the descriptor file and the service describe it.
pub struct App {
    pub name: String,
    pub created_at: i64,
    pub command: Vec<String>,
    pub restart: RestartPolicy,
    pub services: Vec<Service>,
    pub port: u16,
    pub tier: String,
}

impl App {
    /// A fresh descriptor: the given name and creation time, and every
    /// other field at its default — no command, restart on failure, no
    /// services, no exposed port, no tier.
    pub fn with_name(name: &String, created_at: i64) -> (a: App)
        ensures
            a.name@ == name@,
            a.created_at == created_at,
            a.command@.len() == 0,
            a.restart == RestartPolicy::OnFailure(3u64),
            a.services@.len() == 0,
            a.port == 0,
            a.tier@ == Seq::<char>::empty(),
    {
        App {
            name: name.clone(),
            created_at,
            command: Vec::new(),
            restart: RestartPolicy::default(),
            services: Vec::new(),
            port: 0,
            tier: String::new(),
        }
    }

    /// Exposes a port: zero is rejected and leaves the descriptor
    /// untouched, anything else is stored.
    pub fn expose(&mut self, port: u16) -> (r: Result<(), CommandError>)
        ensures
            port != 0 ==> r is Ok && *final(self) == (App { port, ..*old(self) }),
            port == 0 ==> (r matches Err(e) && e.message@ == "Invalid port."@ && e.help@
                == "Port must be non-zero."@ && *final(self) == *old(self)),
    {
        if port == 0 {
            Err(CommandError::with_message_and_help("Invalid port.", "Port must be non-zero."))
        } else {
            self.port = port;
            Ok(())
        }
    }
}

} // verus!
