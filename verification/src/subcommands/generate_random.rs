//! Generates a sequence of random bytes.

use vstd::prelude::*;

verus! {

/// Generates a sequence of random bytes.
#[derive(Debug)]
pub struct GenerateRandom {
    /// How many bytes to generate.
    pub nbytes: usize,
}

} // verus!
