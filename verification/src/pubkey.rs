//! Public key format adapter.
//!
//! The remote service exports RSA public keys as PKCS#1 DER and
//! elliptic-curve public keys as raw uncompressed points. This module wraps
//! either into a standards-compliant SubjectPublicKeyInfo envelope, or tags
//! an RSA key for PKCS#1 output unchanged, choosing the AlgorithmIdentifier
//! from the key's policy metadata.

use vstd::prelude::*;

use crate::der::{
    der_bit_string, der_integer, der_len_bytes, der_sequence, lemma_der_integer_len,
    lemma_parse_int_pair_sound, lemma_usize_be_bytes_len, parse_int_pair, push_bytes_range,
    push_len, spec_parse_int_pair,
};
use crate::error::ToolErrorKind;
use crate::policy::{Attributes, EccFamily, KeyType};

verus! {

/// The PEM label under which an encoded public key is written out.
#[derive(Clone, Copy, Debug, PartialEq, Eq, Structural)]
pub enum PemTag {
    /// "PUBLIC KEY": a SubjectPublicKeyInfo envelope.
    PublicKey,
    /// "RSA PUBLIC KEY": a bare PKCS#1 RSA key.
    RsaPublicKey,
}

/// The characters of a PEM label.
pub open spec fn spec_pem_tag_text(tag: PemTag) -> Seq<char> {
    match tag {
        PemTag::PublicKey => "PUBLIC KEY"@,
        PemTag::RsaPublicKey => "RSA PUBLIC KEY"@,
    }
}

impl PemTag {
    /// The PEM label's text.
    pub fn text(&self) -> (r: &'static str)
        ensures
            r@ == spec_pem_tag_text(*self),
    {
        match self {
            PemTag::PublicKey => "PUBLIC KEY",
            PemTag::RsaPublicKey => "RSA PUBLIC KEY",
        }
    }
}

/// The two output styles a public key can be requested in.
#[derive(Clone, Copy, Debug, PartialEq, Eq, Structural)]
pub enum PublicKeyStyle {
    /// Bare PKCS#1, defined for RSA keys only.
    Pkcs1,
    /// A SubjectPublicKeyInfo envelope with an AlgorithmIdentifier.
    SubjectPublicKeyInfo,
}

/// DER bytes of a public key, tagged with the PEM label it is written under.
#[derive(Debug)]
pub struct EncodedPublicKey {
    pub tag: PemTag,
    pub der: Vec<u8>,
}

/// The OID TLV of a curve under the SEC arc `1.3.132.0`.
pub open spec fn spec_sec_oid_der(last: u8) -> Seq<u8> {
    seq![0x06u8, 0x05, 0x2B, 0x81, 0x04, 0x00, last]
}

/// The OID TLV of a curve under the ANSI X9.62 arc `1.2.840.10045.3.1`.
pub open spec fn spec_ansi_oid_der(last: u8) -> Seq<u8> {
    seq![0x06u8, 0x08, 0x2A, 0x86, 0x48, 0xCE, 0x3D, 0x03, 0x01, last]
}

/// The OID TLV of `rsaEncryption`, `1.2.840.113549.1.1.1`.
pub open spec fn spec_rsa_encryption_oid_der() -> Seq<u8> {
    seq![0x06u8, 0x09, 0x2A, 0x86, 0x48, 0x86, 0xF7, 0x0D, 0x01, 0x01, 0x01]
}

/// The OID TLV of `id-ecPublicKey`, `1.2.840.10045.2.1`.
pub open spec fn spec_ec_public_key_oid_der() -> Seq<u8> {
    seq![0x06u8, 0x07, 0x2A, 0x86, 0x48, 0xCE, 0x3D, 0x02, 0x01]
}

/// The named-curve OID TLV for a curve family and bit length, or `None`
/// where the pair has no defined curve:
/// SEC random prime-field curves at 192/224/256/384/521 bits, SEC Koblitz
/// prime-field curves at 192/224/256 bits, and SEC binary-field curves at
/// 233/283/409/571 bits.
pub open spec fn spec_curve_oid_der(family: EccFamily, bits: usize) -> Option<Seq<u8>> {
    match family {
        EccFamily::SecpR1 => match bits {
            192usize => Some(spec_ansi_oid_der(0x01)),
            224usize => Some(spec_sec_oid_der(0x21)),
            256usize => Some(spec_ansi_oid_der(0x07)),
            384usize => Some(spec_sec_oid_der(0x22)),
            521usize => Some(spec_sec_oid_der(0x23)),
            _ => None,
        },
        EccFamily::SecpK1 => match bits {
            192usize => Some(spec_sec_oid_der(0x1F)),
            224usize => Some(spec_sec_oid_der(0x20)),
            256usize => Some(spec_sec_oid_der(0x0A)),
            _ => None,
        },
        EccFamily::SectK1 => match bits {
            233usize => Some(spec_sec_oid_der(0x1A)),
            283usize => Some(spec_sec_oid_der(0x10)),
            409usize => Some(spec_sec_oid_der(0x24)),
            571usize => Some(spec_sec_oid_der(0x26)),
            _ => None,
        },
        EccFamily::SectR1 => match bits {
            233usize => Some(spec_sec_oid_der(0x1B)),
            283usize => Some(spec_sec_oid_der(0x11)),
            409usize => Some(spec_sec_oid_der(0x25)),
            571usize => Some(spec_sec_oid_der(0x27)),
            _ => None,
        },
        _ => None,
    }
}

/// Appends a SEC-arc curve OID TLV to `out`.
fn push_sec_oid(out: &mut Vec<u8>, last: u8)
    requires
        old(out)@.len() + 7 <= usize::MAX,
    ensures
        final(out)@ == old(out)@ + spec_sec_oid_der(last),
{
    out.push(0x06);
    out.push(0x05);
    out.push(0x2B);
    out.push(0x81);
    out.push(0x04);
    out.push(0x00);
    out.push(last);
    assert(out@ =~= old(out)@ + spec_sec_oid_der(last));
}

/// Appends an ANSI X9.62-arc curve OID TLV to `out`.
fn push_ansi_oid(out: &mut Vec<u8>, last: u8)
    requires
        old(out)@.len() + 10 <= usize::MAX,
    ensures
        final(out)@ == old(out)@ + spec_ansi_oid_der(last),
{
    out.push(0x06);
    out.push(0x08);
    out.push(0x2A);
    out.push(0x86);
    out.push(0x48);
    out.push(0xCE);
    out.push(0x3D);
    out.push(0x03);
    out.push(0x01);
    out.push(last);
    assert(out@ =~= old(out)@ + spec_ansi_oid_der(last));
}

/// The named-curve OID TLV for a curve family and bit length, following
/// `spec_curve_oid_der`.
pub fn curve_oid_der(family: EccFamily, bits: usize) -> (r: Option<Vec<u8>>)
    ensures
        match r {
            Some(v) => spec_curve_oid_der(family, bits) == Some(v@),
            None => spec_curve_oid_der(family, bits) is None,
        },
{
    let kind: Option<(bool, u8)> = match family {
        EccFamily::SecpR1 => match bits {
            192usize => Some((false, 0x01)),
            224usize => Some((true, 0x21)),
            256usize => Some((false, 0x07)),
            384usize => Some((true, 0x22)),
            521usize => Some((true, 0x23)),
            _ => None,
        },
        EccFamily::SecpK1 => match bits {
            192usize => Some((true, 0x1F)),
            224usize => Some((true, 0x20)),
            256usize => Some((true, 0x0A)),
            _ => None,
        },
        EccFamily::SectK1 => match bits {
            233usize => Some((true, 0x1A)),
            283usize => Some((true, 0x10)),
            409usize => Some((true, 0x24)),
            571usize => Some((true, 0x26)),
            _ => None,
        },
        EccFamily::SectR1 => match bits {
            233usize => Some((true, 0x1B)),
            283usize => Some((true, 0x11)),
            409usize => Some((true, 0x25)),
            571usize => Some((true, 0x27)),
            _ => None,
        },
        _ => None,
    };
    match kind {
        None => None,
        Some((sec, last)) => {
            let mut v: Vec<u8> = Vec::new();
            if sec {
                push_sec_oid(&mut v, last);
            } else {
                push_ansi_oid(&mut v, last);
            }
            Some(v)
        },
    }
}

/// The AlgorithmIdentifier of an RSA public key: the `rsaEncryption` OID
/// with NULL parameters.
pub open spec fn spec_rsa_alg_id_der() -> Seq<u8> {
    der_sequence(spec_rsa_encryption_oid_der() + seq![0x05u8, 0x00])
}

/// The AlgorithmIdentifier of an elliptic-curve public key: the
/// `id-ecPublicKey` OID parameterized by a named-curve OID.
pub open spec fn spec_ec_alg_id_der(curve_tlv: Seq<u8>) -> Seq<u8> {
    der_sequence(spec_ec_public_key_oid_der() + curve_tlv)
}

/// The PKCS#1 `RsaPublicKey` structure over a modulus and public exponent,
/// both big-endian unsigned.
pub open spec fn spec_rsa_pkcs1_der(modulus: Seq<u8>, exponent: Seq<u8>) -> Seq<u8> {
    der_sequence(der_integer(modulus) + der_integer(exponent))
}

/// The SubjectPublicKeyInfo envelope of an RSA public key: the RSA
/// AlgorithmIdentifier beside the PKCS#1 structure wrapped in a BIT STRING.
pub open spec fn spec_rsa_spki_der(modulus: Seq<u8>, exponent: Seq<u8>) -> Seq<u8> {
    der_sequence(spec_rsa_alg_id_der() + der_bit_string(spec_rsa_pkcs1_der(modulus, exponent)))
}

/// The SubjectPublicKeyInfo envelope of an elliptic-curve public key: the
/// EC AlgorithmIdentifier for the named curve beside the raw uncompressed
/// point wrapped in a BIT STRING.
pub open spec fn spec_ec_spki_der(curve_tlv: Seq<u8>, point: Seq<u8>) -> Seq<u8> {
    der_sequence(spec_ec_alg_id_der(curve_tlv) + der_bit_string(point))
}

/// Appends the RSA AlgorithmIdentifier to `out`.
fn push_rsa_alg_id(out: &mut Vec<u8>)
    requires
        old(out)@.len() + 15 <= usize::MAX,
    ensures
        final(out)@ == old(out)@ + spec_rsa_alg_id_der(),
{
    out.push(0x30);
    out.push(0x0D);
    out.push(0x06);
    out.push(0x09);
    out.push(0x2A);
    out.push(0x86);
    out.push(0x48);
    out.push(0x86);
    out.push(0xF7);
    out.push(0x0D);
    out.push(0x01);
    out.push(0x01);
    out.push(0x01);
    out.push(0x05);
    out.push(0x00);
    assert(out@ =~= old(out)@ + spec_rsa_alg_id_der());
}

/// Appends the EC AlgorithmIdentifier for a named curve to `out`.
fn push_ec_alg_id(out: &mut Vec<u8>, curve_tlv: &Vec<u8>)
    requires
        curve_tlv@.len() <= 16,
        old(out)@.len() + 32 <= usize::MAX,
    ensures
        final(out)@ == old(out)@ + spec_ec_alg_id_der(curve_tlv@),
{
    out.push(0x30);
    out.push(9 + curve_tlv.len() as u8);
    out.push(0x06);
    out.push(0x07);
    out.push(0x2A);
    out.push(0x86);
    out.push(0x48);
    out.push(0xCE);
    out.push(0x3D);
    out.push(0x02);
    out.push(0x01);
    push_bytes_range(out, curve_tlv.as_slice(), 0, curve_tlv.len());
    proof {
        assert(curve_tlv@.subrange(0, curve_tlv@.len() as int) =~= curve_tlv@);
        assert(out@ =~= old(out)@ + spec_ec_alg_id_der(curve_tlv@));
    }
}

/// Appends a BIT STRING with no unused bits holding `data[start..end]`.
fn push_bit_string(out: &mut Vec<u8>, data: &[u8], start: usize, end: usize)
    requires
        start <= end <= data@.len(),
        old(out)@.len() + (end - start) + 16 <= usize::MAX,
    ensures
        final(out)@ == old(out)@ + der_bit_string(data@.subrange(start as int, end as int)),
{
    proof {
        lemma_usize_be_bytes_len((end - start + 1) as nat);
    }
    out.push(0x03);
    push_len(out, end - start + 1);
    out.push(0x00);
    push_bytes_range(out, data, start, end);
    assert(out@ =~= old(out)@ + der_bit_string(data@.subrange(start as int, end as int)));
}

/// Builds the SubjectPublicKeyInfo envelope from a finished
/// AlgorithmIdentifier and the bytes to wrap in the BIT STRING.
fn build_spki(alg_id: &Vec<u8>, key: &[u8]) -> (r: Vec<u8>)
    requires
        alg_id@.len() <= 64,
        key@.len() + 128 <= usize::MAX,
    ensures
        r@ == der_sequence(alg_id@ + der_bit_string(key@)),
{
    proof {
        lemma_usize_be_bytes_len((key@.len() + 1) as nat);
        lemma_usize_be_bytes_len((key@.len() + 80) as nat);
    }
    let bit_len_header = crate::der::der_len_size(key.len() + 1);
    let payload = alg_id.len() + 1 + bit_len_header + 1 + key.len();
    let mut out: Vec<u8> = Vec::new();
    out.push(0x30);
    push_len(&mut out, payload);
    push_bytes_range(&mut out, alg_id.as_slice(), 0, alg_id.len());
    push_bit_string(&mut out, key, 0, key.len());
    proof {
        assert(alg_id@.subrange(0, alg_id@.len() as int) =~= alg_id@);
        assert(key@.subrange(0, key@.len() as int) =~= key@);
        assert(out@ =~= der_sequence(alg_id@ + der_bit_string(key@)));
    }
    out
}

/// What `encode_public_key` produces for raw key material under a key's
/// policy metadata: the PEM tag and the DER bytes, or the error owed.
///
/// RSA keys pass through unchanged under PKCS#1, and are re-wrapped into a
/// SubjectPublicKeyInfo envelope otherwise; material that does not parse as
/// a canonical PKCS#1 structure is a decoding error. PKCS#1 is undefined
/// for elliptic-curve keys. An elliptic-curve key takes the named-curve OID
/// of its family and bit length, and fails as unsupported where the table
/// has none. Any other key type is unsupported.
pub open spec fn spec_encode_public_key(
    data: Seq<u8>,
    attrs: Attributes,
    style: PublicKeyStyle,
) -> Result<(PemTag, Seq<u8>), ToolErrorKind> {
    match attrs.key_type {
        KeyType::RsaKeyPair | KeyType::RsaPublicKey => match style {
            PublicKeyStyle::Pkcs1 => Ok((PemTag::RsaPublicKey, data)),
            PublicKeyStyle::SubjectPublicKeyInfo => match spec_parse_int_pair(data) {
                Some(p) => Ok((PemTag::PublicKey, spec_rsa_spki_der(p.0, p.1))),
                None => Err(ToolErrorKind::DecodingError),
            },
        },
        KeyType::EccKeyPair { curve_family } | KeyType::EccPublicKey { curve_family } => match
            style {
            PublicKeyStyle::Pkcs1 => Err(ToolErrorKind::WrongKeyAlgorithm),
            PublicKeyStyle::SubjectPublicKeyInfo => match spec_curve_oid_der(
                curve_family,
                attrs.bits,
            ) {
                Some(tlv) => Ok((PemTag::PublicKey, spec_ec_spki_der(tlv, data))),
                None => Err(ToolErrorKind::NotSupported),
            },
        },
        _ => Err(ToolErrorKind::NotSupported),
    }
}

/// Converts raw public-key material, as exported by the remote service,
/// into PEM-taggable DER bytes, following `spec_encode_public_key`.
pub fn encode_public_key(data: Vec<u8>, attrs: Attributes, style: PublicKeyStyle) -> (r: Result<
    EncodedPublicKey,
    ToolErrorKind,
>)
    requires
        data@.len() + 256 <= usize::MAX,
    ensures
        r matches Ok(v) ==> spec_encode_public_key(data@, attrs, style) == Ok::<
            (PemTag, Seq<u8>),
            ToolErrorKind,
        >((v.tag, v.der@)),
        r matches Err(e) ==> spec_encode_public_key(data@, attrs, style) == Err::<
            (PemTag, Seq<u8>),
            ToolErrorKind,
        >(e),
{
    match attrs.key_type {
        KeyType::RsaKeyPair | KeyType::RsaPublicKey => match style {
            PublicKeyStyle::Pkcs1 => Ok(EncodedPublicKey { tag: PemTag::RsaPublicKey, der: data }),
            PublicKeyStyle::SubjectPublicKeyInfo => match parse_int_pair(data.as_slice()) {
                Some((m, e)) => {
                    proof {
                        lemma_parse_int_pair_sound(data@);
                    }
                    let rebuilt = rebuild_rsa_pkcs1(&m, &e);
                    let mut alg_id: Vec<u8> = Vec::new();
                    push_rsa_alg_id(&mut alg_id);
                    let spki = build_spki(&alg_id, rebuilt.as_slice());
                    Ok(EncodedPublicKey { tag: PemTag::PublicKey, der: spki })
                },
                None => Err(ToolErrorKind::DecodingError),
            },
        },
        KeyType::EccKeyPair { curve_family } | KeyType::EccPublicKey { curve_family } => match
            style {
            PublicKeyStyle::Pkcs1 => Err(ToolErrorKind::WrongKeyAlgorithm),
            PublicKeyStyle::SubjectPublicKeyInfo => match curve_oid_der(curve_family, attrs.bits) {
                Some(tlv) => {
                    let mut alg_id: Vec<u8> = Vec::new();
                    push_ec_alg_id(&mut alg_id, &tlv);
                    let spki = build_spki(&alg_id, data.as_slice());
                    Ok(EncodedPublicKey { tag: PemTag::PublicKey, der: spki })
                },
                None => Err(ToolErrorKind::NotSupported),
            },
        },
        _ => Err(ToolErrorKind::NotSupported),
    }
}

/// Builds the PKCS#1 structure over a modulus and public exponent.
#[verifier::rlimit(60)]
fn rebuild_rsa_pkcs1(m: &Vec<u8>, e: &Vec<u8>) -> (r: Vec<u8>)
    requires
        m@.len() + e@.len() + 64 <= usize::MAX,
    ensures
        r@ == spec_rsa_pkcs1_der(m@, e@),
{
    let ghost dm = der_integer(m@);
    let ghost de = der_integer(e@);
    proof {
        lemma_der_integer_len(m@);
        lemma_der_integer_len(e@);
        lemma_usize_be_bytes_len((m@.len() + e@.len() + 24) as nat);
        assert(m@.subrange(0, m@.len() as int) =~= m@);
        assert(e@.subrange(0, e@.len() as int) =~= e@);
    }
    let m_len = crate::der::der_integer_size(m.as_slice(), 0, m.len());
    let e_len = crate::der::der_integer_size(e.as_slice(), 0, e.len());
    let payload = m_len + e_len;
    proof {
        lemma_usize_be_bytes_len(payload as nat);
    }
    let mut out: Vec<u8> = Vec::new();
    out.push(0x30);
    push_len(&mut out, payload);
    crate::der::push_der_integer(&mut out, m.as_slice(), 0, m.len());
    crate::der::push_der_integer(&mut out, e.as_slice(), 0, e.len());
    proof {
        assert(payload == (dm + de).len());
        assert(out@ =~= seq![0x30u8] + der_len_bytes((dm + de).len()) + (dm + de));
    }
    out
}

/// The PEM text framing a tag and DER contents: `-----BEGIN <tag>-----`,
/// the base64 of the contents wrapped at 64 characters, `-----END <tag>-----`,
/// each line ended with a line feed. The text is a function of the inputs
/// alone.
pub uninterp spec fn pem_of(tag: Seq<char>, contents: Seq<u8>) -> Seq<char>;

/// Relies on pem::encode_config with LF line endings: the framed,
/// line-wrapped base64 text is determined by the tag and contents alone.
#[verifier::external_body]
fn pem_encode(tag: &str, contents: &[u8]) -> (r: String)
    ensures
        r@ == pem_of(tag@, contents@),
{
    pem::encode_config(
        &pem::Pem { tag: tag.to_string(), contents: contents.to_vec() },
        pem::EncodeConfig { line_ending: pem::LineEnding::LF },
    )
}

impl EncodedPublicKey {
    /// The PEM text of the encoded key, under its tag.
    pub fn pem_string(&self) -> (r: String)
        ensures
            r@ == pem_of(spec_pem_tag_text(self.tag), self.der@),
    {
        pem_encode(self.tag.text(), self.der.as_slice())
    }
}

/// Law: a SubjectPublicKeyInfo envelope built for parsed RSA material
/// carries the `rsaEncryption` AlgorithmIdentifier, and its BIT STRING
/// wraps exactly the original PKCS#1 bytes, so the original modulus and
/// exponent are preserved.
pub proof fn lemma_rsa_spki_wraps_original(data: Seq<u8>)
    requires
        spec_parse_int_pair(data) is Some,
    ensures
        ({
            let (m, e) = spec_parse_int_pair(data)->Some_0;
            &&& data == spec_rsa_pkcs1_der(m, e)
            &&& spec_rsa_spki_der(m, e) == der_sequence(
                spec_rsa_alg_id_der() + der_bit_string(data),
            )
        }),
{
    lemma_parse_int_pair_sound(data);
}

} // verus!
