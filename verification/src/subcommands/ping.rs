//! Pings the service.

use vstd::prelude::*;

verus! {

/// Pings the service and prints the wire protocol version.
#[derive(Debug)]
pub struct Ping {}

} // verus!
