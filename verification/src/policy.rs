//! Value types describing a key's cryptographic policy: key type, curve
//! family, bit length, permitted algorithm and usage flags.
//!
//! These mirror the policy metadata returned by the remote service for each
//! named key. They are pure data; every consistency rule is checked at the
//! point of use, since the values are sourced from an external system.

use vstd::prelude::*;

verus! {

/// A concrete hash algorithm.
#[derive(Clone, Copy, Debug, PartialEq, Eq, Structural)]
pub enum Hash {
    Md2,
    Md4,
    Md5,
    Ripemd160,
    Sha1,
    Sha224,
    Sha256,
    Sha384,
    Sha512,
    Sha512_224,
    Sha512_256,
    Sha3_224,
    Sha3_256,
    Sha3_384,
    Sha3_512,
}

/// The hash alternatives a signing policy may permit: one specific hash, or
/// any hash of the caller's choosing.
#[derive(Clone, Copy, Debug, PartialEq, Eq, Structural)]
pub enum SignHash {
    /// A specific hash algorithm.
    Specific(Hash),
    /// Any hash algorithm is permitted by the policy.
    Any,
}

/// An asymmetric signature scheme.
#[derive(Clone, Copy, Debug, PartialEq, Eq, Structural)]
pub enum AsymmetricSignature {
    /// RSA PKCS#1 v1.5 signature with hashing.
    RsaPkcs1v15Sign { hash_alg: SignHash },
    /// Raw PKCS#1 v1.5 signature, without hashing.
    RsaPkcs1v15SignRaw,
    /// RSA PSS signature with hashing.
    RsaPss { hash_alg: SignHash },
    /// ECDSA signature with hashing.
    Ecdsa { hash_alg: SignHash },
    /// ECDSA signature without hashing.
    EcdsaAny,
    /// Deterministic ECDSA signature with hashing.
    DeterministicEcdsa { hash_alg: SignHash },
}

/// An asymmetric encryption scheme.
#[derive(Clone, Copy, Debug, PartialEq, Eq, Structural)]
pub enum AsymmetricEncryption {
    /// RSA PKCS#1 v1.5 encryption.
    RsaPkcs1v15Crypt,
    /// RSA OAEP encryption.
    RsaOaep { hash_alg: Hash },
}

/// The algorithm a key's policy permits.
///
/// Families whose details this library never inspects (MACs, symmetric
/// ciphers, AEAD, key agreement and derivation) are carried as bare tags.
#[derive(Clone, Copy, Debug, PartialEq, Eq, Structural)]
pub enum Algorithm {
    /// No cryptographic operation is permitted with the key; an invalid
    /// algorithm identifier value.
    Null,
    /// Hash algorithm.
    Hash(Hash),
    /// MAC algorithm.
    Mac,
    /// Symmetric cipher algorithm.
    Cipher,
    /// Authenticated encryption with associated data.
    Aead,
    /// Public-key signature algorithm.
    AsymmetricSignature(AsymmetricSignature),
    /// Public-key encryption algorithm.
    AsymmetricEncryption(AsymmetricEncryption),
    /// Key agreement algorithm.
    KeyAgreement,
    /// Key derivation algorithm.
    KeyDerivation,
}

/// An elliptic-curve family, as named by the key policy.
#[derive(Clone, Copy, Debug, PartialEq, Eq, Structural)]
pub enum EccFamily {
    /// SEC Koblitz curves over prime fields.
    SecpK1,
    /// SEC random curves over prime fields.
    SecpR1,
    /// SEC additional random curves over prime fields.
    SecpR2,
    /// SEC Koblitz curves over binary fields.
    SectK1,
    /// SEC random curves over binary fields.
    SectR1,
    /// SEC additional random curves over binary fields.
    SectR2,
    /// Brainpool P random curves.
    BrainpoolPR1,
    /// Curve25519 and Curve448.
    Montgomery,
    /// Twisted Edwards curves.
    TwistedEdwards,
    /// Curve used primarily in France and elsewhere in Europe.
    Frp,
}

/// The category and type of a key.
#[derive(Clone, Copy, Debug, PartialEq, Eq, Structural)]
pub enum KeyType {
    /// Not valid for any cryptographic operation; stores arbitrary data.
    RawData,
    /// HMAC key.
    Hmac,
    /// A secret key for derivation.
    Derive,
    /// Key for an algorithm based on the AES block cipher.
    Aes,
    /// Key for an algorithm based on DES or 3DES.
    Des,
    /// Key for an algorithm based on the Camellia block cipher.
    Camellia,
    /// Key for the RC4 stream cipher.
    Arc4,
    /// Key for the ChaCha20 cipher or the ChaCha20-Poly1305 AEAD.
    Chacha20,
    /// RSA public key.
    RsaPublicKey,
    /// RSA key pair.
    RsaKeyPair,
    /// Elliptic-curve key pair.
    EccKeyPair { curve_family: EccFamily },
    /// Elliptic-curve public key.
    EccPublicKey { curve_family: EccFamily },
    /// Diffie-Hellman key pair.
    DhKeyPair,
    /// Diffie-Hellman public key.
    DhPublicKey,
}

/// Lifetime of a key in the service's storage.
#[derive(Clone, Copy, Debug, PartialEq, Eq, Structural)]
pub enum Lifetime {
    /// The key exists only as long as its identifier.
    Volatile,
    /// The key remains in storage until explicitly destroyed.
    Persistent,
    /// An implementation-specific storage area.
    Custom(u32),
}

/// What kinds of operations are permitted on a key.
#[derive(Clone, Copy, Debug, PartialEq, Eq, Structural)]
pub struct UsageFlags {
    pub export: bool,
    pub copy: bool,
    pub cache: bool,
    pub encrypt: bool,
    pub decrypt: bool,
    pub sign_message: bool,
    pub verify_message: bool,
    pub sign_hash: bool,
    pub verify_hash: bool,
    pub derive: bool,
}

/// A key's usage policy: flags plus the permitted algorithm.
#[derive(Clone, Copy, Debug, PartialEq, Eq, Structural)]
pub struct Policy {
    pub usage_flags: UsageFlags,
    pub permitted_algorithms: Algorithm,
}

/// The full policy metadata of a key, as retrieved from the service.
#[derive(Clone, Copy, Debug, PartialEq, Eq, Structural)]
pub struct Attributes {
    pub lifetime: Lifetime,
    pub key_type: KeyType,
    /// Size of the key in bits: modulus bits for RSA, field size for ECC.
    pub bits: usize,
    pub policy: Policy,
}

impl UsageFlags {
    /// Usage flags with every permission withheld.
    pub fn none() -> (r: UsageFlags)
        ensures
            r == spec_no_usage_flags(),
    {
        UsageFlags {
            export: false,
            copy: false,
            cache: false,
            encrypt: false,
            decrypt: false,
            sign_message: false,
            verify_message: false,
            sign_hash: false,
            verify_hash: false,
            derive: false,
        }
    }
}

/// Usage flags with every permission withheld.
pub open spec fn spec_no_usage_flags() -> UsageFlags {
    UsageFlags {
        export: false,
        copy: false,
        cache: false,
        encrypt: false,
        decrypt: false,
        sign_message: false,
        verify_message: false,
        sign_hash: false,
        verify_hash: false,
        derive: false,
    }
}

/// Usage flags of a signing key: sign and verify, on messages and on
/// pre-computed hashes.
pub open spec fn spec_signing_usage_flags() -> UsageFlags {
    UsageFlags {
        sign_hash: true,
        sign_message: true,
        verify_hash: true,
        verify_message: true,
        ..spec_no_usage_flags()
    }
}

/// Usage flags of an encryption key: encrypt and decrypt.
pub open spec fn spec_encryption_usage_flags() -> UsageFlags {
    UsageFlags {
        encrypt: true,
        decrypt: true,
        ..spec_no_usage_flags()
    }
}

impl AsymmetricSignature {
    /// Whether the scheme is an elliptic-curve scheme, so that the service
    /// returns its signatures as a raw concatenation of `r` and `s`.
    pub open spec fn spec_is_ecc_alg(self) -> bool {
        match self {
            AsymmetricSignature::Ecdsa { .. } => true,
            AsymmetricSignature::EcdsaAny => true,
            AsymmetricSignature::DeterministicEcdsa { .. } => true,
            _ => false,
        }
    }

    /// Whether the scheme is an elliptic-curve scheme.
    pub fn is_ecc_alg(&self) -> (r: bool)
        ensures
            r == self.spec_is_ecc_alg(),
    {
        match self {
            AsymmetricSignature::Ecdsa { .. } => true,
            AsymmetricSignature::EcdsaAny => true,
            AsymmetricSignature::DeterministicEcdsa { .. } => true,
            _ => false,
        }
    }
}

} // verus!
