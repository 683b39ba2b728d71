//! Lists all clients currently holding data in the service (admin
//! operation).

use vstd::prelude::*;

verus! {

/// Lists all clients currently holding data in the service (admin
/// operation).
#[derive(Debug)]
pub struct ListClients {}

} // verus!
