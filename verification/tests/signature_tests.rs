//! Tests of the signature format adapter: DER encoding of raw ECDSA
//! signatures, RSA passthrough, and the decode round trip.

use parsec_tool::error::ToolErrorKind;
use parsec_tool::policy::{AsymmetricSignature, SignHash};
use parsec_tool::signature::{decode_ecdsa_signature, encode_ecdsa_signature, encode_signature};

fn ecdsa_sha256() -> AsymmetricSignature {
    AsymmetricSignature::Ecdsa {
        hash_alg: SignHash::Specific(parsec_tool::policy::Hash::Sha256),
    }
}

#[test]
fn small_ecdsa_signature_exact_der() {
    let mut raw = vec![0u8; 32];
    raw[31] = 0x01;
    let mut second = vec![0u8; 32];
    second[31] = 0x02;
    raw.extend_from_slice(&second);
    let der = encode_signature(raw, ecdsa_sha256()).unwrap();
    assert_eq!(der, vec![0x30, 0x06, 0x02, 0x01, 0x01, 0x02, 0x01, 0x02]);
}

#[test]
fn rsa_signature_passes_through_unchanged() {
    let raw = vec![0x12u8, 0x34, 0x56, 0x78, 0x9A];
    let alg = AsymmetricSignature::RsaPkcs1v15Sign {
        hash_alg: SignHash::Specific(parsec_tool::policy::Hash::Sha256),
    };
    assert_eq!(encode_signature(raw.clone(), alg), Ok(raw.clone()));
    let pss = AsymmetricSignature::RsaPss { hash_alg: SignHash::Any };
    assert_eq!(encode_signature(raw.clone(), pss), Ok(raw));
}

#[test]
fn odd_length_ecdsa_input_fails() {
    for len in [1usize, 3, 31, 63, 95, 129] {
        let raw = vec![0xABu8; len];
        assert_eq!(
            encode_signature(raw, ecdsa_sha256()),
            Err(ToolErrorKind::DecodingError),
            "length {} must be rejected",
            len
        );
    }
}

#[test]
fn high_bit_halves_get_leading_zero() {
    // r = 0x80...0, s = 0xFF...F: both high-bit, so DER must pad each with
    // a zero byte to keep the value non-negative.
    let mut raw = vec![0u8; 64];
    raw[0] = 0x80;
    for i in 32..64 {
        raw[i] = 0xFF;
    }
    let der = encode_ecdsa_signature(&raw).unwrap();
    // SEQUENCE of two INTEGERs of 33 content bytes each: 2 + 35 + 35 bytes.
    assert_eq!(der.len(), 72);
    assert_eq!(der[0], 0x30);
    assert_eq!(der[1], 70);
    assert_eq!(der[2], 0x02);
    assert_eq!(der[3], 33);
    assert_eq!(der[4], 0x00);
    assert_eq!(der[5], 0x80);
    assert_eq!(der[37], 0x02);
    assert_eq!(der[38], 33);
    assert_eq!(der[39], 0x00);
    assert_eq!(der[40], 0xFF);
}

fn round_trip_case(n: usize, raw: Vec<u8>) {
    assert_eq!(raw.len(), 2 * n);
    let der = encode_ecdsa_signature(&raw).unwrap();
    let back = decode_ecdsa_signature(&der, n).unwrap();
    assert_eq!(back, raw, "round trip must restore the raw halves for n={}", n);
}

#[test]
fn round_trip_known_curve_sizes() {
    for n in [28usize, 32, 48, 64] {
        // Small values with leading zeros.
        let mut raw = vec![0u8; 2 * n];
        raw[n - 1] = 0x05;
        raw[2 * n - 1] = 0x17;
        round_trip_case(n, raw);

        // High bit of r and s set, needing a leading zero byte in DER.
        let mut raw = vec![0u8; 2 * n];
        for i in 0..2 * n {
            raw[i] = 0xC3;
        }
        raw[0] = 0x80;
        raw[n] = 0xFF;
        round_trip_case(n, raw);

        // Zero halves.
        round_trip_case(n, vec![0u8; 2 * n]);

        // Leading zeros then a high-bit byte inside the half.
        let mut raw = vec![0u8; 2 * n];
        raw[2] = 0x91;
        raw[n + 1] = 0x80;
        raw[2 * n - 1] = 0x01;
        round_trip_case(n, raw);
    }
}

#[test]
fn decode_rejects_garbage() {
    assert_eq!(
        decode_ecdsa_signature(&[0x31, 0x00], 32),
        Err(ToolErrorKind::DecodingError)
    );
    assert_eq!(decode_ecdsa_signature(&[], 32), Err(ToolErrorKind::DecodingError));
    // Non-minimal integer: leading zero before a low byte.
    assert_eq!(
        decode_ecdsa_signature(&[0x30, 0x07, 0x02, 0x02, 0x00, 0x01, 0x02, 0x01, 0x02], 32),
        Err(ToolErrorKind::DecodingError)
    );
    // Trailing bytes after the two integers.
    assert_eq!(
        decode_ecdsa_signature(&[0x30, 0x06, 0x02, 0x01, 0x01, 0x02, 0x01, 0x02, 0x00], 32),
        Err(ToolErrorKind::DecodingError)
    );
}

#[test]
fn decode_rejects_oversized_value() {
    // r has 3 bytes but the caller asks for 2-byte halves.
    let der = vec![0x30, 0x08, 0x02, 0x03, 0x01, 0x02, 0x03, 0x02, 0x01, 0x09];
    assert_eq!(decode_ecdsa_signature(&der, 2), Err(ToolErrorKind::DecodingError));
    assert!(decode_ecdsa_signature(&der, 3).is_ok());
}

#[test]
fn long_form_length_round_trip() {
    // 64-byte halves give a DER body over 127 bytes, forcing the long
    // length form in the outer SEQUENCE.
    let raw = vec![0x7Fu8; 128];
    let der = encode_ecdsa_signature(&raw).unwrap();
    assert_eq!(der[0], 0x30);
    assert_eq!(der[1], 0x81);
    assert_eq!(der[2], 132);
    let back = decode_ecdsa_signature(&der, 64).unwrap();
    assert_eq!(back, raw);
}
