//! Decrypts data with a specified key, using the algorithm set in the
//! key's policy at creation.
//!
//! The ciphertext is given base64-encoded.

use vstd::prelude::*;

use crate::error::ToolErrorKind;
use crate::util::{base64_decode_of, decode_base64_input};

verus! {

/// Decrypts data.
#[derive(Debug)]
pub struct Decrypt {
    /// The name of the key to decrypt with.
    pub key_name: String,
    /// The base64-encoded ciphertext.
    pub input_data: String,
}

impl Decrypt {
    /// The ciphertext bytes this command was given, decoded from base64;
    /// text that is not valid base64 is a decoding error.
    pub fn decoded_input(&self) -> (r: Result<Vec<u8>, ToolErrorKind>)
        ensures
            r matches Ok(v) ==> base64_decode_of(self.input_data@) == Some(v@),
            r matches Err(e) ==> (e == ToolErrorKind::DecodingError && base64_decode_of(
                self.input_data@,
            ) is None),
    {
        decode_base64_input(self.input_data.as_str())
    }
}

} // verus!
