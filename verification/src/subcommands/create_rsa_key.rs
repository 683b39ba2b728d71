//! Creates an RSA key pair.
//!
//! The key is 2048 bits long unless told otherwise, and by default serves
//! asymmetric encryption with RSA PKCS#1 v1.5.

use vstd::prelude::*;

use crate::policy::{
    Algorithm, AsymmetricEncryption, AsymmetricSignature, Attributes, KeyType, Lifetime, Policy,
    SignHash, UsageFlags, spec_encryption_usage_flags, spec_signing_usage_flags,
};

verus! {

/// Creates an RSA key pair.
#[derive(Debug)]
pub struct CreateRsaKey {
    /// The name under which the key is created.
    pub key_name: String,
    /// Create a signing key with the PKCS#1 v1.5 scheme and SHA-256 instead
    /// of an encryption key. Takes precedence over the PSS option.
    pub is_for_signing: bool,
    /// Create a signing key with the PSS scheme and SHA-256.
    pub is_for_signing_pss: bool,
    /// The size of the key in bits; 2048 when absent. The service decides
    /// what sizes it accepts.
    pub bits: Option<usize>,
    /// Permit RSA OAEP (SHA-256) encryption instead of RSA PKCS#1 v1.5.
    pub oaep: bool,
}

/// The policy an RSA key is created with: signing with PKCS#1 v1.5 when
/// signing is asked for, signing with PSS when only the PSS option is set,
/// and otherwise encryption, with OAEP when asked for.
pub open spec fn spec_create_rsa_policy(
    is_for_signing: bool,
    is_for_signing_pss: bool,
    oaep: bool,
) -> Policy {
    if is_for_signing {
        Policy {
            usage_flags: spec_signing_usage_flags(),
            permitted_algorithms: Algorithm::AsymmetricSignature(
                AsymmetricSignature::RsaPkcs1v15Sign {
                    hash_alg: SignHash::Specific(crate::policy::Hash::Sha256),
                },
            ),
        }
    } else if is_for_signing_pss {
        Policy {
            usage_flags: spec_signing_usage_flags(),
            permitted_algorithms: Algorithm::AsymmetricSignature(
                AsymmetricSignature::RsaPss {
                    hash_alg: SignHash::Specific(crate::policy::Hash::Sha256),
                },
            ),
        }
    } else {
        Policy {
            usage_flags: spec_encryption_usage_flags(),
            permitted_algorithms: Algorithm::AsymmetricEncryption(
                if oaep {
                    AsymmetricEncryption::RsaOaep { hash_alg: crate::policy::Hash::Sha256 }
                } else {
                    AsymmetricEncryption::RsaPkcs1v15Crypt
                },
            ),
        }
    }
}

/// The attributes an RSA key is created with: a persistent RSA key pair of
/// the asked-for size, defaulting to 2048 bits, under
/// `spec_create_rsa_policy`.
pub open spec fn spec_create_rsa_attributes(
    is_for_signing: bool,
    is_for_signing_pss: bool,
    oaep: bool,
    bits: Option<usize>,
) -> Attributes {
    Attributes {
        lifetime: Lifetime::Persistent,
        key_type: KeyType::RsaKeyPair,
        bits: match bits {
            Some(b) => b,
            None => 2048,
        },
        policy: spec_create_rsa_policy(is_for_signing, is_for_signing_pss, oaep),
    }
}

impl CreateRsaKey {
    /// The attributes to request from the service for this key.
    pub fn attributes(&self) -> (r: Attributes)
        ensures
            r == spec_create_rsa_attributes(
                self.is_for_signing,
                self.is_for_signing_pss,
                self.oaep,
                self.bits,
            ),
    {
        let policy = if self.is_for_signing {
            let mut usage_flags = UsageFlags::none();
            usage_flags.sign_hash = true;
            usage_flags.sign_message = true;
            usage_flags.verify_hash = true;
            usage_flags.verify_message = true;
            Policy {
                usage_flags,
                permitted_algorithms: Algorithm::AsymmetricSignature(
                    AsymmetricSignature::RsaPkcs1v15Sign {
                        hash_alg: SignHash::Specific(crate::policy::Hash::Sha256),
                    },
                ),
            }
        } else if self.is_for_signing_pss {
            let mut usage_flags = UsageFlags::none();
            usage_flags.sign_hash = true;
            usage_flags.sign_message = true;
            usage_flags.verify_hash = true;
            usage_flags.verify_message = true;
            Policy {
                usage_flags,
                permitted_algorithms: Algorithm::AsymmetricSignature(
                    AsymmetricSignature::RsaPss {
                        hash_alg: SignHash::Specific(crate::policy::Hash::Sha256),
                    },
                ),
            }
        } else {
            let mut usage_flags = UsageFlags::none();
            usage_flags.encrypt = true;
            usage_flags.decrypt = true;
            Policy {
                usage_flags,
                permitted_algorithms: Algorithm::AsymmetricEncryption(
                    if self.oaep {
                        AsymmetricEncryption::RsaOaep { hash_alg: crate::policy::Hash::Sha256 }
                    } else {
                        AsymmetricEncryption::RsaPkcs1v15Crypt
                    },
                ),
            }
        };
        let bits: usize = match self.bits {
            Some(b) => b,
            None => 2048,
        };
        Attributes { lifetime: Lifetime::Persistent, key_type: KeyType::RsaKeyPair, bits, policy }
    }
}

} // verus!
