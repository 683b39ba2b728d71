//! Lists all keys belonging to the application.

use vstd::prelude::*;

verus! {

/// Lists all keys belonging to the application.
#[derive(Debug)]
pub struct ListKeys {}

} // verus!
