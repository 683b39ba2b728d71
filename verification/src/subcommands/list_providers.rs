//! Lists the available providers supported by the service.

use vstd::prelude::*;

verus! {

/// Lists the available providers supported by the service.
#[derive(Debug)]
pub struct ListProviders {}

} // verus!
