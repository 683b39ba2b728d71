//! Hash resolution and message digesting.
//!
//! A signing policy permits either a specific hash or any hash; the resolver
//! turns that requirement, together with an optional caller-supplied default,
//! into the one concrete hash to use. The digest engine then computes the
//! digest of a message under the resolved hash.

use vstd::prelude::*;

use crate::error::ToolErrorKind;
use crate::policy::{AsymmetricSignature, SignHash};
use sha2::Digest;

verus! {

/// What a signing scheme requires of the hash algorithm.
#[derive(Clone, Copy, Debug, PartialEq, Eq, Structural)]
pub enum HashRequirement {
    /// The policy names one specific hash.
    Specific(crate::policy::Hash),
    /// The policy allows any hash; the caller must choose.
    Any,
    /// The scheme cannot be used with this tool's hash-and-sign flow, for
    /// example a raw (unhashed) or PSS scheme.
    Unsupported,
}

impl AsymmetricSignature {
    /// The hash requirement of a signing scheme.
    ///
    /// Raw schemes carry no hash at all, and PSS is not supported by this
    /// tool's signing flow; both map to `Unsupported`.
    pub open spec fn spec_hash_requirement(self) -> HashRequirement {
        match self {
            AsymmetricSignature::RsaPkcs1v15Sign { hash_alg } => requirement_of(hash_alg),
            AsymmetricSignature::RsaPkcs1v15SignRaw => HashRequirement::Unsupported,
            AsymmetricSignature::RsaPss { .. } => HashRequirement::Unsupported,
            AsymmetricSignature::Ecdsa { hash_alg } => requirement_of(hash_alg),
            AsymmetricSignature::EcdsaAny => HashRequirement::Unsupported,
            AsymmetricSignature::DeterministicEcdsa { hash_alg } => requirement_of(hash_alg),
        }
    }

    /// The hash requirement of a signing scheme.
    pub fn hash_requirement(&self) -> (r: HashRequirement)
        ensures
            r == self.spec_hash_requirement(),
    {
        match self {
            AsymmetricSignature::RsaPkcs1v15Sign { hash_alg: SignHash::Specific(h) } => {
                HashRequirement::Specific(*h)
            },
            AsymmetricSignature::RsaPkcs1v15Sign { hash_alg: SignHash::Any } => {
                HashRequirement::Any
            },
            AsymmetricSignature::Ecdsa { hash_alg: SignHash::Specific(h) } => {
                HashRequirement::Specific(*h)
            },
            AsymmetricSignature::Ecdsa { hash_alg: SignHash::Any } => HashRequirement::Any,
            AsymmetricSignature::DeterministicEcdsa { hash_alg: SignHash::Specific(h) } => {
                HashRequirement::Specific(*h)
            },
            AsymmetricSignature::DeterministicEcdsa { hash_alg: SignHash::Any } => {
                HashRequirement::Any
            },
            _ => HashRequirement::Unsupported,
        }
    }
}

/// The requirement expressed by a policy's hash field.
pub open spec fn requirement_of(hash_alg: SignHash) -> HashRequirement {
    match hash_alg {
        SignHash::Specific(h) => HashRequirement::Specific(h),
        SignHash::Any => HashRequirement::Any,
    }
}

/// What `resolve` returns: the explicit policy wins; `Any` falls back to the
/// caller's default; everything else is unsupported.
pub open spec fn spec_resolve(requirement: HashRequirement, default: Option<crate::policy::Hash>) -> Result<
    crate::policy::Hash,
    ToolErrorKind,
> {
    match requirement {
        HashRequirement::Specific(h) => Ok(h),
        HashRequirement::Any => match default {
            Some(h) => Ok(h),
            None => Err(ToolErrorKind::NotSupported),
        },
        HashRequirement::Unsupported => Err(ToolErrorKind::NotSupported),
    }
}

/// Determines the concrete hash algorithm to use for a signing operation.
///
/// A specific requirement is returned unconditionally, even if a default was
/// supplied. An `Any` requirement takes the caller's default, and fails when
/// none was given. An unsupported requirement always fails.
pub fn resolve(requirement: HashRequirement, default: Option<crate::policy::Hash>) -> (r: Result<
    crate::policy::Hash,
    ToolErrorKind,
>)
    ensures
        r == spec_resolve(requirement, default),
{
    match requirement {
        HashRequirement::Specific(h) => Ok(h),
        HashRequirement::Any => match default {
            Some(h) => Ok(h),
            None => Err(ToolErrorKind::NotSupported),
        },
        HashRequirement::Unsupported => Err(ToolErrorKind::NotSupported),
    }
}

/// A specific requirement resolves to its own hash, whatever default the
/// caller supplies.
pub proof fn lemma_resolve_specific(h: crate::policy::Hash, default: Option<crate::policy::Hash>)
    ensures
        spec_resolve(HashRequirement::Specific(h), default) == Ok::<crate::policy::Hash, ToolErrorKind>(h),
{
}

/// An `Any` requirement resolves to the caller's default when one is given,
/// and fails with `NotSupported` when none is.
pub proof fn lemma_resolve_any(default: Option<crate::policy::Hash>)
    ensures
        default matches Some(h) ==> spec_resolve(HashRequirement::Any, default) == Ok::<
            crate::policy::Hash,
            ToolErrorKind,
        >(h),
        default is None ==> spec_resolve(HashRequirement::Any, default) == Err::<
            crate::policy::Hash,
            ToolErrorKind,
        >(ToolErrorKind::NotSupported),
{
}

/// The SHA-224 digest of a byte sequence. The digest is a function of the
/// input alone.
pub uninterp spec fn sha224_of(data: Seq<u8>) -> Seq<u8>;

/// The SHA-256 digest of a byte sequence. The digest is a function of the
/// input alone.
pub uninterp spec fn sha256_of(data: Seq<u8>) -> Seq<u8>;

/// The SHA-384 digest of a byte sequence. The digest is a function of the
/// input alone.
pub uninterp spec fn sha384_of(data: Seq<u8>) -> Seq<u8>;

/// The SHA-512 digest of a byte sequence. The digest is a function of the
/// input alone.
pub uninterp spec fn sha512_of(data: Seq<u8>) -> Seq<u8>;

/// Relies on sha2::Sha224: a 28-byte digest determined by the input alone.
#[verifier::external_body]
fn sha224_digest(data: &[u8]) -> (r: Vec<u8>)
    ensures
        r@ == sha224_of(data@),
        r@.len() == 28,
{
    sha2::Sha224::digest(data).to_vec()
}

/// Relies on sha2::Sha256: a 32-byte digest determined by the input alone.
#[verifier::external_body]
fn sha256_digest(data: &[u8]) -> (r: Vec<u8>)
    ensures
        r@ == sha256_of(data@),
        r@.len() == 32,
{
    sha2::Sha256::digest(data).to_vec()
}

/// Relies on sha2::Sha384: a 48-byte digest determined by the input alone.
#[verifier::external_body]
fn sha384_digest(data: &[u8]) -> (r: Vec<u8>)
    ensures
        r@ == sha384_of(data@),
        r@.len() == 48,
{
    sha2::Sha384::digest(data).to_vec()
}

/// Relies on sha2::Sha512: a 64-byte digest determined by the input alone.
#[verifier::external_body]
fn sha512_digest(data: &[u8]) -> (r: Vec<u8>)
    ensures
        r@ == sha512_of(data@),
        r@.len() == 64,
{
    sha2::Sha512::digest(data).to_vec()
}

/// Whether the digest engine supports a hash algorithm.
pub open spec fn spec_digest_supported(alg: crate::policy::Hash) -> bool {
    alg == crate::policy::Hash::Sha224 || alg == crate::policy::Hash::Sha256
        || alg == crate::policy::Hash::Sha384 || alg == crate::policy::Hash::Sha512
}

/// The digest of `data` under a supported hash algorithm.
pub open spec fn spec_digest(data: Seq<u8>, alg: crate::policy::Hash) -> Seq<u8>
    recommends
        spec_digest_supported(alg),
{
    match alg {
        crate::policy::Hash::Sha224 => sha224_of(data),
        crate::policy::Hash::Sha256 => sha256_of(data),
        crate::policy::Hash::Sha384 => sha384_of(data),
        crate::policy::Hash::Sha512 => sha512_of(data),
        _ => Seq::empty(),
    }
}

/// Computes the digest of `data` under `alg`.
///
/// Exactly SHA-224, SHA-256, SHA-384 and SHA-512 are supported; any other
/// algorithm fails with `NotSupported`.
pub fn hash_data(data: &[u8], alg: crate::policy::Hash) -> (r: Result<Vec<u8>, ToolErrorKind>)
    ensures
        r matches Ok(v) ==> spec_digest_supported(alg) && v@ == spec_digest(data@, alg),
        r matches Err(e) ==> !spec_digest_supported(alg) && e == ToolErrorKind::NotSupported,
{
    match alg {
        crate::policy::Hash::Sha224 => Ok(sha224_digest(data)),
        crate::policy::Hash::Sha256 => Ok(sha256_digest(data)),
        crate::policy::Hash::Sha384 => Ok(sha384_digest(data)),
        crate::policy::Hash::Sha512 => Ok(sha512_digest(data)),
        _ => Err(ToolErrorKind::NotSupported),
    }
}

} // verus!
