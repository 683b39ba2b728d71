//! Deletes all data a client holds in the service (admin operation).

use vstd::prelude::*;

verus! {

/// Deletes all data a client holds in the service (admin operation).
#[derive(Debug)]
pub struct DeleteClient {
    /// The name of the client to wipe.
    pub client: String,
}

} // verus!
