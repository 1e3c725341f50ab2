//! The error body the deployment service returns on a failed request.

use vstd::prelude::*;

verus! {

/// A non-success response: the service's error text.
pub struct APIError {
    pub error: String,
}

} // verus!
