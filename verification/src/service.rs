//! A service of an app: a build context and its restart policy.

use vstd::prelude::*;
use crate::restart_policy::RestartPolicy;

verus! {

/// One service entry of the app descriptor.
pub struct Service {
    /// The build context directory.
    pub context: String,
    /// How the service's container is restarted.
    pub restart: RestartPolicy,
}

} // verus!
