//! Core logic of a command-line client for a remote key-management service.
//!
//! The library reconciles a service-defined key policy (algorithm family,
//! hash choice, key type, curve family, key size) with the concrete DER
//! encodings required by downstream standards: SubjectPublicKeyInfo, PKCS#1,
//! certificate-signing-request schemes and raw ECDSA signatures.

pub mod csr;
pub mod der;
pub mod error;
pub mod hash;
pub mod policy;
pub mod pubkey;
pub mod signature;
pub mod subcommands;
pub mod util;
