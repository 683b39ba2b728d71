//! Certificate-request policy mapper.
//!
//! A certificate signing request is signed by a builder that understands
//! only a small closed set of hash-and-sign pairings. This module inspects
//! a signing key's full policy — algorithm, hash requirement, key type,
//! curve family and bit length — and selects the one scheme the builder
//! must use, rejecting every combination outside the table.

use vstd::prelude::*;

use crate::error::ToolErrorKind;
use crate::policy::{Algorithm, AsymmetricSignature, Attributes, EccFamily, KeyType, SignHash};

verus! {

/// The closed set of signature schemes the certificate-request builder
/// supports.
#[derive(Clone, Copy, Debug, PartialEq, Eq, Structural)]
pub enum CsrSignatureScheme {
    /// RSA PKCS#1 v1.5 with SHA-256.
    RsaPkcs1v15Sha256,
    /// RSA PKCS#1 v1.5 with SHA-384.
    RsaPkcs1v15Sha384,
    /// RSA PKCS#1 v1.5 with SHA-512.
    RsaPkcs1v15Sha512,
    /// ECDSA on P-256 with SHA-256.
    EcdsaP256Sha256,
    /// ECDSA on P-384 with SHA-384.
    EcdsaP384Sha384,
}

/// The decision table of `select_csr_scheme`, row by row.
///
/// RSA PKCS#1 v1.5 signing keys map to the scheme of their specific hash
/// where the builder has one, and default to SHA-256 under an `Any` hash.
/// Raw RSA and RSA PSS cannot be used: the builder always hashes and lacks
/// PSS support. An ECDSA key must be a key pair on a SEC-R1 (NIST-style)
/// curve; a specific hash must match the key's strength (SHA-256 at 256
/// bits, SHA-384 at 384 bits), and an `Any` hash defaults to SHA-256 only
/// at 256 bits, since the default cannot be made to track any other
/// strength. A key whose algorithm is not an asymmetric signature cannot
/// sign a request at all.
pub open spec fn spec_select_csr_scheme(attrs: Attributes) -> Result<
    CsrSignatureScheme,
    ToolErrorKind,
> {
    match attrs.policy.permitted_algorithms {
        Algorithm::AsymmetricSignature(alg) => match alg {
            AsymmetricSignature::RsaPkcs1v15Sign { hash_alg } => match hash_alg {
                SignHash::Specific(crate::policy::Hash::Sha256) => Ok(
                    CsrSignatureScheme::RsaPkcs1v15Sha256,
                ),
                SignHash::Specific(crate::policy::Hash::Sha384) => Ok(
                    CsrSignatureScheme::RsaPkcs1v15Sha384,
                ),
                SignHash::Specific(crate::policy::Hash::Sha512) => Ok(
                    CsrSignatureScheme::RsaPkcs1v15Sha512,
                ),
                SignHash::Any => Ok(CsrSignatureScheme::RsaPkcs1v15Sha256),
                _ => Err(ToolErrorKind::NotSupported),
            },
            AsymmetricSignature::RsaPkcs1v15SignRaw => Err(ToolErrorKind::NotSupported),
            AsymmetricSignature::RsaPss { .. } => Err(ToolErrorKind::NotSupported),
            AsymmetricSignature::Ecdsa { hash_alg } => {
                if !(attrs.key_type matches KeyType::EccKeyPair {
                    curve_family: EccFamily::SecpR1,
                }) {
                    Err(ToolErrorKind::NotSupported)
                } else {
                    match hash_alg {
                        SignHash::Specific(crate::policy::Hash::Sha256) => if attrs.bits == 256 {
                            Ok(CsrSignatureScheme::EcdsaP256Sha256)
                        } else {
                            Err(ToolErrorKind::NotSupported)
                        },
                        SignHash::Specific(crate::policy::Hash::Sha384) => if attrs.bits == 384 {
                            Ok(CsrSignatureScheme::EcdsaP384Sha384)
                        } else {
                            Err(ToolErrorKind::NotSupported)
                        },
                        SignHash::Any => if attrs.bits == 256 {
                            Ok(CsrSignatureScheme::EcdsaP256Sha256)
                        } else {
                            Err(ToolErrorKind::NotSupported)
                        },
                        _ => Err(ToolErrorKind::NotSupported),
                    }
                }
            },
            _ => Err(ToolErrorKind::NotSupported),
        },
        _ => Err(ToolErrorKind::WrongKeyAlgorithm),
    }
}

/// Selects the certificate-request signature scheme for a signing key's
/// policy, following `spec_select_csr_scheme` row by row.
pub fn select_csr_scheme(attrs: Attributes) -> (r: Result<CsrSignatureScheme, ToolErrorKind>)
    ensures
        r == spec_select_csr_scheme(attrs),
{
    match attrs.policy.permitted_algorithms {
        Algorithm::AsymmetricSignature(alg) => match alg {
            AsymmetricSignature::RsaPkcs1v15Sign { hash_alg } => match hash_alg {
                SignHash::Specific(crate::policy::Hash::Sha256) => Ok(
                    CsrSignatureScheme::RsaPkcs1v15Sha256,
                ),
                SignHash::Specific(crate::policy::Hash::Sha384) => Ok(
                    CsrSignatureScheme::RsaPkcs1v15Sha384,
                ),
                SignHash::Specific(crate::policy::Hash::Sha512) => Ok(
                    CsrSignatureScheme::RsaPkcs1v15Sha512,
                ),
                SignHash::Any => Ok(CsrSignatureScheme::RsaPkcs1v15Sha256),
                _ => Err(ToolErrorKind::NotSupported),
            },
            AsymmetricSignature::RsaPkcs1v15SignRaw => Err(ToolErrorKind::NotSupported),
            AsymmetricSignature::RsaPss { .. } => Err(ToolErrorKind::NotSupported),
            AsymmetricSignature::Ecdsa { hash_alg } => {
                if !(matches!(attrs.key_type, KeyType::EccKeyPair {
                    curve_family: EccFamily::SecpR1,
                })) {
                    Err(ToolErrorKind::NotSupported)
                } else {
                    match hash_alg {
                        SignHash::Specific(crate::policy::Hash::Sha256) => if attrs.bits == 256 {
                            Ok(CsrSignatureScheme::EcdsaP256Sha256)
                        } else {
                            Err(ToolErrorKind::NotSupported)
                        },
                        SignHash::Specific(crate::policy::Hash::Sha384) => if attrs.bits == 384 {
                            Ok(CsrSignatureScheme::EcdsaP384Sha384)
                        } else {
                            Err(ToolErrorKind::NotSupported)
                        },
                        SignHash::Any => if attrs.bits == 256 {
                            Ok(CsrSignatureScheme::EcdsaP256Sha256)
                        } else {
                            Err(ToolErrorKind::NotSupported)
                        },
                        _ => Err(ToolErrorKind::NotSupported),
                    }
                }
            },
            _ => Err(ToolErrorKind::NotSupported),
        },
        _ => Err(ToolErrorKind::WrongKeyAlgorithm),
    }
}

/// Law: a key policy permitting RSA PSS is never mapped to a
/// certificate-request scheme, whatever its hash, key type or bit length.
pub proof fn lemma_csr_rejects_rsa_pss(attrs: Attributes)
    requires
        attrs.policy.permitted_algorithms matches Algorithm::AsymmetricSignature(
            AsymmetricSignature::RsaPss { .. },
        ),
    ensures
        spec_select_csr_scheme(attrs) == Err::<CsrSignatureScheme, ToolErrorKind>(
            ToolErrorKind::NotSupported,
        ),
{
}

/// Law: an ECDSA key policy on a curve family other than SEC-R1 is never
/// mapped to a certificate-request scheme, whatever its hash or bit length.
pub proof fn lemma_csr_rejects_non_secp_r1(attrs: Attributes)
    requires
        attrs.policy.permitted_algorithms matches Algorithm::AsymmetricSignature(
            AsymmetricSignature::Ecdsa { .. },
        ),
        !(attrs.key_type matches KeyType::EccKeyPair { curve_family: EccFamily::SecpR1 }),
    ensures
        spec_select_csr_scheme(attrs) == Err::<CsrSignatureScheme, ToolErrorKind>(
            ToolErrorKind::NotSupported,
        ),
{
}

} // verus!
