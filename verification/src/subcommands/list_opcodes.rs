//! Lists the supported opcodes for a given provider.

use vstd::prelude::*;

verus! {

/// Lists the supported opcodes for a given provider.
#[derive(Debug)]
pub struct ListOpcodes {
    /// ID of the provider; the client's implicit provider when absent.
    pub provider: Option<u8>,
}

} // verus!
