//! Signs data, using the algorithm set in the key's policy at creation.
//!
//! The signature is printed base64-encoded.

use vstd::prelude::*;

use crate::util::{base64_of, encode_base64_output};

verus! {

/// Signs data.
#[derive(Debug)]
pub struct Sign {
    /// The name of the key to sign with.
    pub key_name: String,
    /// The UTF-8 text to sign.
    pub input_data: String,
}

impl Sign {
    /// The base64 text under which a finished signature is printed.
    pub fn format_signature(&self, signature: &Vec<u8>) -> (r: String)
        ensures
            r@ == base64_of(signature@),
    {
        encode_base64_output(signature.as_slice())
    }
}

} // verus!
