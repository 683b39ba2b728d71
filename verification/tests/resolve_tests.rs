//! Tests of the hash resolver and the hash-requirement mapping.

use parsec_tool::error::ToolErrorKind;
use parsec_tool::hash::{resolve, HashRequirement};
use parsec_tool::policy::{AsymmetricSignature, SignHash};

#[test]
fn resolve_specific_wins_over_default() {
    let r = resolve(HashRequirement::Specific(parsec_tool::policy::Hash::Sha384), Some(parsec_tool::policy::Hash::Sha256));
    assert_eq!(r, Ok(parsec_tool::policy::Hash::Sha384));
}

#[test]
fn resolve_specific_without_default() {
    let r = resolve(HashRequirement::Specific(parsec_tool::policy::Hash::Sha512), None);
    assert_eq!(r, Ok(parsec_tool::policy::Hash::Sha512));
}

#[test]
fn resolve_any_takes_default() {
    let r = resolve(HashRequirement::Any, Some(parsec_tool::policy::Hash::Sha256));
    assert_eq!(r, Ok(parsec_tool::policy::Hash::Sha256));
}

#[test]
fn resolve_any_without_default_fails() {
    let r = resolve(HashRequirement::Any, None);
    assert_eq!(r, Err(ToolErrorKind::NotSupported));
}

#[test]
fn resolve_unsupported_fails_even_with_default() {
    let r = resolve(HashRequirement::Unsupported, Some(parsec_tool::policy::Hash::Sha256));
    assert_eq!(r, Err(ToolErrorKind::NotSupported));
}

#[test]
fn requirement_of_specific_scheme() {
    let alg = AsymmetricSignature::Ecdsa {
        hash_alg: SignHash::Specific(parsec_tool::policy::Hash::Sha256),
    };
    assert_eq!(alg.hash_requirement(), HashRequirement::Specific(parsec_tool::policy::Hash::Sha256));
}

#[test]
fn requirement_of_any_scheme() {
    let alg = AsymmetricSignature::RsaPkcs1v15Sign { hash_alg: SignHash::Any };
    assert_eq!(alg.hash_requirement(), HashRequirement::Any);
}

#[test]
fn requirement_of_raw_scheme_is_unsupported() {
    let alg = AsymmetricSignature::RsaPkcs1v15SignRaw;
    assert_eq!(alg.hash_requirement(), HashRequirement::Unsupported);
}

#[test]
fn requirement_of_pss_scheme_is_unsupported() {
    let alg = AsymmetricSignature::RsaPss {
        hash_alg: SignHash::Specific(parsec_tool::policy::Hash::Sha256),
    };
    assert_eq!(alg.hash_requirement(), HashRequirement::Unsupported);
}
