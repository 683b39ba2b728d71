//! Creates an ECC key pair.
//!
//! The curve is secp256r1, for asymmetric signing with ECDSA over SHA-256.

use vstd::prelude::*;

use crate::policy::{
    Algorithm, AsymmetricSignature, Attributes, EccFamily, KeyType, Lifetime, Policy, SignHash,
    UsageFlags, spec_signing_usage_flags,
};

verus! {

/// Creates an ECC key pair.
#[derive(Debug)]
pub struct CreateEccKey {
    /// The name under which the key is created.
    pub key_name: String,
}

/// The attributes an ECC signing key is created with: a persistent 256-bit
/// key pair on a SEC-R1 curve, permitted to sign and verify with ECDSA over
/// SHA-256.
pub open spec fn spec_create_ecc_attributes() -> Attributes {
    Attributes {
        lifetime: Lifetime::Persistent,
        key_type: KeyType::EccKeyPair { curve_family: EccFamily::SecpR1 },
        bits: 256,
        policy: Policy {
            usage_flags: spec_signing_usage_flags(),
            permitted_algorithms: Algorithm::AsymmetricSignature(
                AsymmetricSignature::Ecdsa {
                    hash_alg: SignHash::Specific(crate::policy::Hash::Sha256),
                },
            ),
        },
    }
}

impl CreateEccKey {
    /// The attributes to request from the service for this key.
    pub fn attributes(&self) -> (r: Attributes)
        ensures
            r == spec_create_ecc_attributes(),
    {
        let mut usage_flags = UsageFlags::none();
        usage_flags.sign_hash = true;
        usage_flags.sign_message = true;
        usage_flags.verify_hash = true;
        usage_flags.verify_message = true;
        Attributes {
            lifetime: Lifetime::Persistent,
            key_type: KeyType::EccKeyPair { curve_family: EccFamily::SecpR1 },
            bits: 256,
            policy: Policy {
                usage_flags,
                permitted_algorithms: Algorithm::AsymmetricSignature(
                    AsymmetricSignature::Ecdsa {
                        hash_alg: SignHash::Specific(crate::policy::Hash::Sha256),
                    },
                ),
            },
        }
    }
}

} // verus!
