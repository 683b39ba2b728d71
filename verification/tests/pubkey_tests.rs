//! Tests of the public key format adapter, cross-checked against an
//! independent ASN.1 implementation.

use parsec_tool::error::ToolErrorKind;
use parsec_tool::policy::{
    Algorithm, Attributes, EccFamily, KeyType, Lifetime, Policy, UsageFlags,
};
use parsec_tool::pubkey::{curve_oid_der, encode_public_key, PemTag, PublicKeyStyle};

use picky_asn1::wrapper::IntegerAsn1;
use picky_asn1_x509::{AlgorithmIdentifierParameters, PublicKey, RsaPublicKey, SubjectPublicKeyInfo};

fn attributes_for(key_type: KeyType, bits: usize) -> Attributes {
    Attributes {
        lifetime: Lifetime::Persistent,
        key_type,
        bits,
        policy: Policy {
            usage_flags: UsageFlags::none(),
            permitted_algorithms: Algorithm::Null,
        },
    }
}

fn sample_pkcs1() -> (Vec<u8>, Vec<u8>, Vec<u8>) {
    // A modulus with the high bit set, and the usual 65537 exponent.
    let modulus: Vec<u8> = vec![0xC3, 0x41, 0x59, 0x26, 0x53, 0x58, 0x97, 0x93];
    let exponent: Vec<u8> = vec![0x01, 0x00, 0x01];
    let pkcs1 = picky_asn1_der::to_vec(&RsaPublicKey {
        modulus: IntegerAsn1::from_bytes_be_unsigned(modulus.clone()),
        public_exponent: IntegerAsn1::from_bytes_be_unsigned(exponent.clone()),
    })
    .unwrap();
    (modulus, exponent, pkcs1)
}

#[test]
fn rsa_pkcs1_style_passes_through() {
    let (_, _, pkcs1) = sample_pkcs1();
    let attrs = attributes_for(KeyType::RsaKeyPair, 2048);
    let out = encode_public_key(pkcs1.clone(), attrs, PublicKeyStyle::Pkcs1).unwrap();
    assert_eq!(out.tag, PemTag::RsaPublicKey);
    assert_eq!(out.tag.text(), "RSA PUBLIC KEY");
    assert_eq!(out.der, pkcs1);
}

#[test]
fn rsa_spki_wraps_original_key() {
    let (modulus, exponent, pkcs1) = sample_pkcs1();
    let attrs = attributes_for(KeyType::RsaPublicKey, 2048);
    let out = encode_public_key(pkcs1, attrs, PublicKeyStyle::SubjectPublicKeyInfo).unwrap();
    assert_eq!(out.tag, PemTag::PublicKey);
    assert_eq!(out.tag.text(), "PUBLIC KEY");

    let spki: SubjectPublicKeyInfo = picky_asn1_der::from_bytes(&out.der).unwrap();
    let oid_string: String = spki.algorithm.oid().clone().into();
    assert_eq!(oid_string, "1.2.840.113549.1.1.1");
    assert!(matches!(
        spki.algorithm.parameters(),
        AlgorithmIdentifierParameters::Null
    ));
    match spki.subject_public_key {
        PublicKey::Rsa(container) => {
            let inner: RsaPublicKey = container.0;
            assert_eq!(inner.modulus.as_unsigned_bytes_be(), modulus.as_slice());
            assert_eq!(inner.public_exponent.as_unsigned_bytes_be(), exponent.as_slice());
        }
        _ => panic!("expected an RSA key inside the envelope"),
    }
}

#[test]
fn rsa_spki_rejects_malformed_material() {
    let attrs = attributes_for(KeyType::RsaKeyPair, 2048);
    let out = encode_public_key(
        vec![0xDE, 0xAD, 0xBE, 0xEF],
        attrs,
        PublicKeyStyle::SubjectPublicKeyInfo,
    );
    assert_eq!(out.unwrap_err(), ToolErrorKind::DecodingError);
}

#[test]
fn ecc_spki_names_the_curve() {
    let mut point = vec![0x04u8];
    point.extend_from_slice(&[0xAB; 64]);
    let attrs = attributes_for(
        KeyType::EccKeyPair { curve_family: EccFamily::SecpR1 },
        256,
    );
    let out =
        encode_public_key(point.clone(), attrs, PublicKeyStyle::SubjectPublicKeyInfo).unwrap();
    assert_eq!(out.tag, PemTag::PublicKey);

    let spki: SubjectPublicKeyInfo = picky_asn1_der::from_bytes(&out.der).unwrap();
    let oid_string: String = spki.algorithm.oid().clone().into();
    assert_eq!(oid_string, "1.2.840.10045.2.1");
    match spki.algorithm.parameters() {
        AlgorithmIdentifierParameters::Ec(params) => {
            let curve: String = params.curve_oid().clone().into();
            assert_eq!(curve, "1.2.840.10045.3.1.7");
        }
        _ => panic!("expected named-curve EC parameters"),
    }
    match spki.subject_public_key {
        PublicKey::Ec(bit_string) => {
            assert_eq!(bit_string.0.payload_view(), point.as_slice());
        }
        _ => panic!("expected an EC point inside the envelope"),
    }
}

#[test]
fn ecc_pkcs1_style_is_wrong_key_algorithm() {
    let attrs = attributes_for(
        KeyType::EccKeyPair { curve_family: EccFamily::SecpR1 },
        256,
    );
    let out = encode_public_key(vec![0x04, 0x01, 0x02], attrs, PublicKeyStyle::Pkcs1);
    assert_eq!(out.unwrap_err(), ToolErrorKind::WrongKeyAlgorithm);
}

#[test]
fn unknown_curve_bit_lengths_rejected() {
    let r1 = attributes_for(KeyType::EccPublicKey { curve_family: EccFamily::SecpR1 }, 123);
    assert_eq!(
        encode_public_key(vec![0x04], r1, PublicKeyStyle::SubjectPublicKeyInfo).unwrap_err(),
        ToolErrorKind::NotSupported
    );
    let k1 = attributes_for(KeyType::EccKeyPair { curve_family: EccFamily::SecpK1 }, 384);
    assert_eq!(
        encode_public_key(vec![0x04], k1, PublicKeyStyle::SubjectPublicKeyInfo).unwrap_err(),
        ToolErrorKind::NotSupported
    );
    let mont = attributes_for(
        KeyType::EccKeyPair { curve_family: EccFamily::Montgomery },
        255,
    );
    assert_eq!(
        encode_public_key(vec![0x04], mont, PublicKeyStyle::SubjectPublicKeyInfo).unwrap_err(),
        ToolErrorKind::NotSupported
    );
}

#[test]
fn symmetric_key_type_rejected() {
    let attrs = attributes_for(KeyType::Aes, 128);
    assert_eq!(
        encode_public_key(vec![0x00], attrs, PublicKeyStyle::SubjectPublicKeyInfo).unwrap_err(),
        ToolErrorKind::NotSupported
    );
    let attrs = attributes_for(KeyType::Aes, 128);
    assert_eq!(
        encode_public_key(vec![0x00], attrs, PublicKeyStyle::Pkcs1).unwrap_err(),
        ToolErrorKind::NotSupported
    );
}

#[test]
fn curve_oid_table_matches_standard_oids() {
    let cases: Vec<(EccFamily, usize, &str)> = vec![
        (EccFamily::SecpR1, 192, "1.2.840.10045.3.1.1"),
        (EccFamily::SecpR1, 224, "1.3.132.0.33"),
        (EccFamily::SecpR1, 256, "1.2.840.10045.3.1.7"),
        (EccFamily::SecpR1, 384, "1.3.132.0.34"),
        (EccFamily::SecpR1, 521, "1.3.132.0.35"),
        (EccFamily::SecpK1, 192, "1.3.132.0.31"),
        (EccFamily::SecpK1, 224, "1.3.132.0.32"),
        (EccFamily::SecpK1, 256, "1.3.132.0.10"),
        (EccFamily::SectK1, 233, "1.3.132.0.26"),
        (EccFamily::SectK1, 283, "1.3.132.0.16"),
        (EccFamily::SectK1, 409, "1.3.132.0.36"),
        (EccFamily::SectK1, 571, "1.3.132.0.38"),
        (EccFamily::SectR1, 233, "1.3.132.0.27"),
        (EccFamily::SectR1, 283, "1.3.132.0.17"),
        (EccFamily::SectR1, 409, "1.3.132.0.37"),
        (EccFamily::SectR1, 571, "1.3.132.0.39"),
    ];
    for (family, bits, expected) in cases {
        let tlv = curve_oid_der(family, bits).unwrap();
        let oid: picky_asn1::wrapper::ObjectIdentifierAsn1 =
            picky_asn1_der::from_bytes(&tlv).unwrap();
        let oid_string: String = oid.0.into();
        assert_eq!(oid_string, expected, "family {:?} at {} bits", family, bits);
    }
}

#[test]
fn pem_output_matches_reference_encoder() {
    let (_, _, pkcs1) = sample_pkcs1();
    let attrs = attributes_for(KeyType::RsaKeyPair, 2048);
    let out = encode_public_key(pkcs1, attrs, PublicKeyStyle::SubjectPublicKeyInfo).unwrap();
    let text = out.pem_string();
    let reference = pem::encode_config(
        &pem::Pem {
            tag: String::from("PUBLIC KEY"),
            contents: out.der.clone(),
        },
        pem::EncodeConfig { line_ending: pem::LineEnding::LF },
    );
    assert_eq!(text, reference);
    assert!(text.starts_with("-----BEGIN PUBLIC KEY-----\n"));
    assert!(text.ends_with("-----END PUBLIC KEY-----\n"));
}
