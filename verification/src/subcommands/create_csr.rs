//! Creates an X.509 certificate signing request (CSR) from a key pair,
//! using the signing algorithm associated with the key.
//!
//! The scheme the request is signed under is chosen by
//! `crate::csr::select_csr_scheme` from the key's policy; an external
//! X.509 builder assembles and signs the request itself.

use vstd::prelude::*;

verus! {

/// Creates an X.509 certificate signing request from a key pair.
///
/// The key must be an existing signing key: either an RSA key, or an
/// elliptic-curve key on the NIST P-256 or P-384 curves.
#[derive(Debug)]
pub struct CreateCsr {
    /// The name of the key to sign with.
    pub key_name: String,
    /// The common name of the distinguished name, if any.
    pub common_name: Option<String>,
    /// The locality name of the distinguished name, if any.
    pub locality: Option<String>,
    /// The organization name of the distinguished name, if any.
    pub organization: Option<String>,
    /// The organizational unit of the distinguished name, if any.
    pub organizational_unit: Option<String>,
    /// The state name of the distinguished name, if any.
    pub state: Option<String>,
    /// The country name of the distinguished name, if any.
    pub country: Option<String>,
    /// Subject alternative names for the domains of the request, if any.
    pub subject_alternative_name: Option<Vec<String>>,
}

} // verus!
