//! Encrypts plaintext data with a specified key, using the algorithm set
//! in the key's policy at creation.
//!
//! Only asymmetric encryption is supported; the key must be a public key
//! or a key pair, of which the public part is used. No salt is used. The
//! input is treated as raw bytes, and the output is base64-encoded
//! ciphertext.

use vstd::prelude::*;

use crate::util::{base64_of, encode_base64_output};

verus! {

/// Encrypts data.
#[derive(Debug)]
pub struct Encrypt {
    /// The name of the key to encrypt with.
    pub key_name: String,
    /// The plaintext input string.
    pub input_data: String,
}

impl Encrypt {
    /// The base64 text under which the ciphertext is printed.
    pub fn format_ciphertext(&self, ciphertext: &Vec<u8>) -> (r: String)
        ensures
            r@ == base64_of(ciphertext@),
    {
        encode_base64_output(ciphertext.as_slice())
    }
}

} // verus!
