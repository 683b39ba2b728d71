//! Signature format adapter.
//!
//! The remote service returns elliptic-curve signatures as a raw
//! concatenation of the big-endian unsigned integers `r` and `s`, each half
//! the signature's length. Certificate standards instead want the DER form
//! `SEQUENCE { INTEGER r, INTEGER s }`. RSA signatures are already in their
//! final wire format and pass through unchanged.

use vstd::prelude::*;

use crate::der::{
    der_integer, der_sequence, der_integer_size, lemma_der_integer_len,
    lemma_pad_min_unsigned, lemma_parse_int_pair_of_encoding, lemma_usize_be_bytes_len,
    pad_left, parse_int_pair, push_der_integer, push_len, spec_parse_int_pair, push_padded,
};
use crate::error::ToolErrorKind;
use crate::policy::AsymmetricSignature;

verus! {

/// The DER form of a raw ECDSA signature whose halves are `r` and `s`.
pub open spec fn spec_ecdsa_sig_der(r: Seq<u8>, s: Seq<u8>) -> Seq<u8> {
    der_sequence(der_integer(r) + der_integer(s))
}

/// What `encode_signature` returns: RSA signatures unchanged; ECDSA
/// signatures split at the midpoint and DER-encoded; odd-length ECDSA input
/// rejected as a decoding error.
pub open spec fn spec_encode_signature(raw: Seq<u8>, alg: AsymmetricSignature) -> Result<
    Seq<u8>,
    ToolErrorKind,
> {
    if !alg.spec_is_ecc_alg() {
        Ok(raw)
    } else if raw.len() % 2 != 0 {
        Err(ToolErrorKind::DecodingError)
    } else {
        let half = raw.len() as int / 2;
        Ok(spec_ecdsa_sig_der(raw.take(half), raw.skip(half)))
    }
}

/// DER-encodes a raw ECDSA signature: the first half is `r`, the second
/// half is `s`, both big-endian unsigned. Odd-length input violates the
/// service's convention and fails with a decoding error.
pub fn encode_ecdsa_signature(raw: &[u8]) -> (r: Result<Vec<u8>, ToolErrorKind>)
    requires
        raw@.len() + 64 <= usize::MAX,
    ensures
        raw@.len() % 2 == 0 ==> (r matches Ok(v) && v@ == spec_ecdsa_sig_der(
            raw@.take(raw@.len() as int / 2),
            raw@.skip(raw@.len() as int / 2),
        )),
        raw@.len() % 2 != 0 ==> r == Err::<Vec<u8>, ToolErrorKind>(ToolErrorKind::DecodingError),
{
    let n = raw.len();
    if n % 2 != 0 {
        return Err(ToolErrorKind::DecodingError);
    }
    let half = n / 2;
    let ghost rh = raw@.take(half as int);
    let ghost sh = raw@.skip(half as int);
    proof {
        assert(rh =~= raw@.subrange(0, half as int));
        assert(sh =~= raw@.subrange(half as int, n as int));
    }
    let r_len = der_integer_size(raw, 0, half);
    let s_len = der_integer_size(raw, half, n);
    let payload = r_len + s_len;
    proof {
        lemma_usize_be_bytes_len(payload as nat);
        lemma_der_integer_len(rh);
        lemma_der_integer_len(sh);
    }
    let mut out: Vec<u8> = Vec::new();
    out.push(0x30);
    push_len(&mut out, payload);
    push_der_integer(&mut out, raw, 0, half);
    push_der_integer(&mut out, raw, half, n);
    proof {
        assert(out@ =~= spec_ecdsa_sig_der(rh, sh));
    }
    Ok(out)
}

/// Converts a raw signature, as returned by the remote service, into the
/// wire format expected by certificate standards.
///
/// RSA schemes return the input unchanged. Elliptic-curve schemes DER-encode
/// the two raw halves, failing with a decoding error on odd-length input.
pub fn encode_signature(raw: Vec<u8>, alg: AsymmetricSignature) -> (r: Result<
    Vec<u8>,
    ToolErrorKind,
>)
    requires
        raw@.len() + 64 <= usize::MAX,
    ensures
        r matches Ok(v) ==> spec_encode_signature(raw@, alg) == Ok::<Seq<u8>, ToolErrorKind>(v@),
        r matches Err(e) ==> spec_encode_signature(raw@, alg) == Err::<Seq<u8>, ToolErrorKind>(e),
{
    if alg.is_ecc_alg() {
        encode_ecdsa_signature(raw.as_slice())
    } else {
        Ok(raw)
    }
}

/// Decodes a DER `SEQUENCE { INTEGER r, INTEGER s }` back into the raw
/// concatenated form whose halves have `n` bytes each. Fails with a
/// decoding error if the input is not the canonical DER form of two
/// non-negative integers, or if either integer needs more than `n` bytes.
pub fn decode_ecdsa_signature(der: &[u8], n: usize) -> (r: Result<Vec<u8>, ToolErrorKind>)
    requires
        n <= usize::MAX / 2,
    ensures
        r matches Ok(v) ==> ({
            &&& spec_parse_int_pair(der@) matches Some(p)
            &&& p.0.len() <= n
            &&& p.1.len() <= n
            &&& v@ == pad_left(p.0, n as nat) + pad_left(p.1, n as nat)
            &&& v@.len() == 2 * n
        }),
        r matches Err(e) ==> ({
            &&& e == ToolErrorKind::DecodingError
            &&& !(spec_parse_int_pair(der@) matches Some(p) && p.0.len() <= n && p.1.len() <= n)
        }),
{
    match parse_int_pair(der) {
        None => Err(ToolErrorKind::DecodingError),
        Some((x, y)) => {
            if x.len() > n || y.len() > n {
                Err(ToolErrorKind::DecodingError)
            } else {
                let mut out: Vec<u8> = Vec::new();
                push_padded(&mut out, &x, n);
                push_padded(&mut out, &y, n);
                Ok(out)
            }
        },
    }
}

/// Law: DER-encoding the two halves of an even-length raw ECDSA signature
/// and parsing the result back yields exactly the original halves, restored
/// to their fixed length.
pub proof fn lemma_ecdsa_round_trip(raw: Seq<u8>)
    requires
        raw.len() % 2 == 0,
        raw.len() + 32 <= usize::MAX,
    ensures
        ({
            let half = raw.len() as int / 2;
            let n = (raw.len() / 2) as nat;
            let enc = spec_ecdsa_sig_der(raw.take(half), raw.skip(half));
            &&& spec_parse_int_pair(enc) matches Some(p)
            &&& p.0.len() <= n
            &&& p.1.len() <= n
            &&& pad_left(p.0, n) == raw.take(half)
            &&& pad_left(p.1, n) == raw.skip(half)
            &&& pad_left(p.0, n) + pad_left(p.1, n) == raw
        }),
{
    let half = raw.len() as int / 2;
    let n = (raw.len() / 2) as nat;
    let rh = raw.take(half);
    let sh = raw.skip(half);
    lemma_parse_int_pair_of_encoding(rh, sh);
    lemma_pad_min_unsigned(rh);
    lemma_pad_min_unsigned(sh);
    assert(rh + sh =~= raw);
}

} // verus!
