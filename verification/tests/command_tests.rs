//! Tests of the subcommand option types and the decisions they own.

use parsec_tool::error::ToolErrorKind;
use parsec_tool::policy::{
    Algorithm, AsymmetricEncryption, AsymmetricSignature, EccFamily, KeyType, Lifetime,
    SignHash,
};
use parsec_tool::policy::Policy;
use parsec_tool::policy::UsageFlags;
use parsec_tool::pubkey::PublicKeyStyle;
use parsec_tool::subcommands::common::{key_attributes, KeyInfo};
use parsec_tool::subcommands::create_ecc_key::CreateEccKey;
use parsec_tool::subcommands::create_rsa_key::CreateRsaKey;
use parsec_tool::subcommands::decrypt::Decrypt;
use parsec_tool::subcommands::delete_key::DeleteKey;
use parsec_tool::subcommands::encrypt::Encrypt;
use parsec_tool::subcommands::export_public_key::ExportPublicKey;
use parsec_tool::subcommands::list_opcodes::ListOpcodes;
use parsec_tool::subcommands::ping::Ping;
use parsec_tool::subcommands::sign::Sign;
use parsec_tool::subcommands::Subcommand;
use parsec_tool::util::{encryption_algorithm, prepare_sign_message};
use sha2::Digest;

#[test]
fn ecc_key_attributes() {
    let cmd = CreateEccKey { key_name: String::from("signer") };
    let attrs = cmd.attributes();
    assert_eq!(attrs.lifetime, Lifetime::Persistent);
    assert_eq!(attrs.key_type, KeyType::EccKeyPair { curve_family: EccFamily::SecpR1 });
    assert_eq!(attrs.bits, 256);
    assert_eq!(
        attrs.policy.permitted_algorithms,
        Algorithm::AsymmetricSignature(AsymmetricSignature::Ecdsa {
            hash_alg: SignHash::Specific(parsec_tool::policy::Hash::Sha256),
        })
    );
    let flags = attrs.policy.usage_flags;
    assert!(flags.sign_hash && flags.sign_message && flags.verify_hash && flags.verify_message);
    assert!(!flags.encrypt && !flags.decrypt && !flags.export && !flags.derive);
}

fn rsa_cmd(is_for_signing: bool, is_for_signing_pss: bool, oaep: bool) -> CreateRsaKey {
    CreateRsaKey {
        key_name: String::from("rsa"),
        is_for_signing,
        is_for_signing_pss,
        bits: None,
        oaep,
    }
}

#[test]
fn rsa_key_defaults_to_encryption() {
    let attrs = rsa_cmd(false, false, false).attributes();
    assert_eq!(attrs.key_type, KeyType::RsaKeyPair);
    assert_eq!(attrs.bits, 2048);
    assert_eq!(
        attrs.policy.permitted_algorithms,
        Algorithm::AsymmetricEncryption(AsymmetricEncryption::RsaPkcs1v15Crypt)
    );
    assert!(attrs.policy.usage_flags.encrypt && attrs.policy.usage_flags.decrypt);
    assert!(!attrs.policy.usage_flags.sign_hash);
}

#[test]
fn rsa_key_oaep_option() {
    let attrs = rsa_cmd(false, false, true).attributes();
    assert_eq!(
        attrs.policy.permitted_algorithms,
        Algorithm::AsymmetricEncryption(AsymmetricEncryption::RsaOaep { hash_alg: parsec_tool::policy::Hash::Sha256 })
    );
}

#[test]
fn rsa_key_for_signing() {
    let attrs = rsa_cmd(true, false, false).attributes();
    assert_eq!(
        attrs.policy.permitted_algorithms,
        Algorithm::AsymmetricSignature(AsymmetricSignature::RsaPkcs1v15Sign {
            hash_alg: SignHash::Specific(parsec_tool::policy::Hash::Sha256),
        })
    );
    assert!(attrs.policy.usage_flags.sign_hash && attrs.policy.usage_flags.verify_message);
}

#[test]
fn rsa_key_for_signing_pss() {
    let attrs = rsa_cmd(false, true, false).attributes();
    assert_eq!(
        attrs.policy.permitted_algorithms,
        Algorithm::AsymmetricSignature(AsymmetricSignature::RsaPss {
            hash_alg: SignHash::Specific(parsec_tool::policy::Hash::Sha256),
        })
    );
}

#[test]
fn rsa_signing_takes_precedence_over_pss() {
    let attrs = rsa_cmd(true, true, false).attributes();
    assert_eq!(
        attrs.policy.permitted_algorithms,
        Algorithm::AsymmetricSignature(AsymmetricSignature::RsaPkcs1v15Sign {
            hash_alg: SignHash::Specific(parsec_tool::policy::Hash::Sha256),
        })
    );
}

#[test]
fn rsa_custom_bit_length() {
    let mut cmd = rsa_cmd(false, false, false);
    cmd.bits = Some(4096);
    assert_eq!(cmd.attributes().bits, 4096);
}

#[test]
fn authentication_requirements() {
    assert!(!Subcommand::Ping(Ping {}).authentication_required());
    assert!(!Subcommand::ListOpcodes(ListOpcodes { provider: None }).authentication_required());
    assert!(Subcommand::DeleteKey(DeleteKey { key_name: String::from("k") })
        .authentication_required());
    assert!(Subcommand::Sign(Sign {
        key_name: String::from("k"),
        input_data: String::from("hello"),
    })
    .authentication_required());
}

#[test]
fn export_style_mapping() {
    let cmd = ExportPublicKey { key_name: String::from("k"), pkcs1: true };
    assert_eq!(cmd.style(), PublicKeyStyle::Pkcs1);
    let cmd = ExportPublicKey { key_name: String::from("k"), pkcs1: false };
    assert_eq!(cmd.style(), PublicKeyStyle::SubjectPublicKeyInfo);
}

#[test]
fn encryption_algorithm_decisions() {
    assert_eq!(
        encryption_algorithm(Algorithm::AsymmetricEncryption(
            AsymmetricEncryption::RsaPkcs1v15Crypt
        )),
        Ok(AsymmetricEncryption::RsaPkcs1v15Crypt)
    );
    assert_eq!(
        encryption_algorithm(Algorithm::Cipher),
        Err(ToolErrorKind::NotSupported)
    );
    assert_eq!(encryption_algorithm(Algorithm::Aead), Err(ToolErrorKind::NotSupported));
    assert_eq!(
        encryption_algorithm(Algorithm::AsymmetricSignature(
            AsymmetricSignature::RsaPkcs1v15SignRaw
        )),
        Err(ToolErrorKind::WrongKeyAlgorithm)
    );
    assert_eq!(encryption_algorithm(Algorithm::Null), Err(ToolErrorKind::WrongKeyAlgorithm));
}

#[test]
fn decrypt_decodes_base64_input() {
    let cmd = Decrypt {
        key_name: String::from("k"),
        input_data: String::from("YWJj"),
    };
    assert_eq!(cmd.decoded_input().unwrap(), b"abc".to_vec());
}

#[test]
fn decrypt_rejects_bad_base64() {
    let cmd = Decrypt {
        key_name: String::from("k"),
        input_data: String::from("not//valid!!"),
    };
    assert_eq!(cmd.decoded_input().unwrap_err(), ToolErrorKind::DecodingError);
}

#[test]
fn sign_formats_signature_as_base64() {
    let cmd = Sign {
        key_name: String::from("k"),
        input_data: String::from("x"),
    };
    assert_eq!(cmd.format_signature(&vec![0x61, 0x62, 0x63]), "YWJj");
    assert_eq!(cmd.format_signature(&Vec::new()), "");
}

#[test]
fn encrypt_formats_ciphertext_as_base64() {
    let cmd = Encrypt {
        key_name: String::from("k"),
        input_data: String::from("x"),
    };
    assert_eq!(cmd.format_ciphertext(&vec![0xFF, 0x00]), base64::encode([0xFFu8, 0x00]));
}

#[test]
fn prepare_sign_message_specific_hash() {
    let alg = Algorithm::AsymmetricSignature(AsymmetricSignature::Ecdsa {
        hash_alg: SignHash::Specific(parsec_tool::policy::Hash::Sha256),
    });
    let (digest, scheme) = prepare_sign_message(alg, b"message", None).unwrap();
    assert_eq!(digest, sha2::Sha256::digest(b"message").to_vec());
    assert_eq!(
        scheme,
        AsymmetricSignature::Ecdsa { hash_alg: SignHash::Specific(parsec_tool::policy::Hash::Sha256) }
    );
}

#[test]
fn prepare_sign_message_any_hash_uses_default() {
    let alg = Algorithm::AsymmetricSignature(AsymmetricSignature::RsaPkcs1v15Sign {
        hash_alg: SignHash::Any,
    });
    let (digest, _) = prepare_sign_message(alg, b"message", Some(parsec_tool::policy::Hash::Sha384)).unwrap();
    assert_eq!(digest, sha2::Sha384::digest(b"message").to_vec());
}

#[test]
fn prepare_sign_message_any_hash_without_default_fails() {
    let alg = Algorithm::AsymmetricSignature(AsymmetricSignature::Ecdsa {
        hash_alg: SignHash::Any,
    });
    assert_eq!(
        prepare_sign_message(alg, b"message", None).unwrap_err(),
        ToolErrorKind::NotSupported
    );
}

#[test]
fn prepare_sign_message_pss_unsupported() {
    let alg = Algorithm::AsymmetricSignature(AsymmetricSignature::RsaPss {
        hash_alg: SignHash::Specific(parsec_tool::policy::Hash::Sha256),
    });
    assert_eq!(
        prepare_sign_message(alg, b"message", Some(parsec_tool::policy::Hash::Sha256)).unwrap_err(),
        ToolErrorKind::NotSupported
    );
}

#[test]
fn prepare_sign_message_non_signing_key() {
    let alg = Algorithm::AsymmetricEncryption(AsymmetricEncryption::RsaPkcs1v15Crypt);
    assert_eq!(
        prepare_sign_message(alg, b"message", None).unwrap_err(),
        ToolErrorKind::WrongKeyAlgorithm
    );
}

#[test]
fn prepare_sign_message_unusual_specific_hash_fails() {
    let alg = Algorithm::AsymmetricSignature(AsymmetricSignature::Ecdsa {
        hash_alg: SignHash::Specific(parsec_tool::policy::Hash::Md5),
    });
    assert_eq!(
        prepare_sign_message(alg, b"message", None).unwrap_err(),
        ToolErrorKind::NotSupported
    );
}

#[test]
fn key_attributes_finds_first_match() {
    let key = |name: &str, bits: usize| KeyInfo {
        provider_id: 1,
        name: String::from(name),
        attributes: parsec_tool::policy::Attributes {
            lifetime: Lifetime::Persistent,
            key_type: KeyType::RsaKeyPair,
            bits,
            policy: Policy {
                usage_flags: UsageFlags::none(),
                permitted_algorithms: Algorithm::Null,
            },
        },
    };
    let keys = vec![key("alpha", 1024), key("beta", 2048), key("beta", 4096)];
    assert_eq!(key_attributes(&keys, &String::from("beta")).unwrap().bits, 2048);
    assert_eq!(key_attributes(&keys, &String::from("alpha")).unwrap().bits, 1024);
    assert!(key_attributes(&keys, &String::from("gamma")).is_none());
    assert!(key_attributes(&Vec::new(), &String::from("beta")).is_none());
}
