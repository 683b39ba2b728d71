//! Lists the authenticators supported by the service.

use vstd::prelude::*;

verus! {

/// Lists the authenticators supported by the service.
#[derive(Debug)]
pub struct ListAuthenticators {}

} // verus!
