//! Deletes a key.

use vstd::prelude::*;

verus! {

/// Deletes a key.
#[derive(Debug)]
pub struct DeleteKey {
    /// The name of the key to destroy.
    pub key_name: String,
}

} // verus!
