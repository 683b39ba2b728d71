//! Exports a PEM-encoded public key.

use vstd::prelude::*;

use crate::pubkey::PublicKeyStyle;

verus! {

/// Exports a PEM-encoded public key.
#[derive(Debug)]
pub struct ExportPublicKey {
    /// The name of the key to export.
    pub key_name: String,
    /// Export an RSA public key in PKCS#1 format instead of a
    /// SubjectPublicKeyInfo envelope.
    pub pkcs1: bool,
}

impl ExportPublicKey {
    /// The output style this command asks for.
    pub fn style(&self) -> (r: PublicKeyStyle)
        ensures
            r == if self.pkcs1 {
                PublicKeyStyle::Pkcs1
            } else {
                PublicKeyStyle::SubjectPublicKeyInfo
            },
    {
        if self.pkcs1 {
            PublicKeyStyle::Pkcs1
        } else {
            PublicKeyStyle::SubjectPublicKeyInfo
        }
    }
}

} // verus!
