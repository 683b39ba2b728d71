//! Utility code shared by multiple subcommands: the policy-driven signing
//! flow, the shared encryption-policy check, and the textual encoding of
//! command input and output.

use vstd::prelude::*;

use crate::error::ToolErrorKind;
use crate::hash::{hash_data, resolve, spec_digest, spec_digest_supported, spec_resolve};
use crate::policy::{Algorithm, AsymmetricEncryption, AsymmetricSignature};

verus! {

/// The digest that signing a message under a key's permitted algorithm must
/// sign: the key must permit an asymmetric signature scheme, the scheme's
/// hash requirement is resolved against the caller's optional default, and
/// the message is digested under the resolved hash.
pub open spec fn spec_sign_message_digest(
    alg: Algorithm,
    msg: Seq<u8>,
    default: Option<crate::policy::Hash>,
) -> Result<Seq<u8>, ToolErrorKind> {
    match alg {
        Algorithm::AsymmetricSignature(sig) => match spec_resolve(
            sig.spec_hash_requirement(),
            default,
        ) {
            Ok(h) => if spec_digest_supported(h) {
                Ok(spec_digest(msg, h))
            } else {
                Err(ToolErrorKind::NotSupported)
            },
            Err(e) => Err(e),
        },
        _ => Err(ToolErrorKind::WrongKeyAlgorithm),
    }
}

/// First half of signing a message under a key's policy: checks that the
/// key permits asymmetric signing, resolves its hash requirement against
/// the caller's optional default, and computes the digest to hand to the
/// remote signing operation, paired with the scheme it runs under. The raw
/// signature the service returns is then finished by
/// `crate::signature::encode_signature`.
pub fn prepare_sign_message(
    alg: Algorithm,
    msg: &[u8],
    default_hash: Option<crate::policy::Hash>,
) -> (r: Result<(Vec<u8>, AsymmetricSignature), ToolErrorKind>)
    ensures
        r matches Ok(p) ==> (alg == Algorithm::AsymmetricSignature(p.1)
            && spec_sign_message_digest(alg, msg@, default_hash) == Ok::<Seq<u8>, ToolErrorKind>(
            p.0@,
        )),
        r matches Err(e) ==> spec_sign_message_digest(alg, msg@, default_hash) == Err::<
            Seq<u8>,
            ToolErrorKind,
        >(e),
{
    match alg {
        Algorithm::AsymmetricSignature(sig) => {
            let requirement = sig.hash_requirement();
            let resolved = match resolve(requirement, default_hash) {
                Ok(h) => h,
                Err(e) => {
                    return Err(e);
                },
            };
            match hash_data(msg, resolved) {
                Ok(digest) => Ok((digest, sig)),
                Err(e) => Err(e),
            }
        },
        _ => Err(ToolErrorKind::WrongKeyAlgorithm),
    }
}

/// What checking a key's algorithm for encryption or decryption yields:
/// the asymmetric scheme to use, `NotSupported` for the symmetric families
/// the tool does not implement yet, and `WrongKeyAlgorithm` for a key that
/// cannot encrypt at all.
pub open spec fn spec_encryption_algorithm(alg: Algorithm) -> Result<
    AsymmetricEncryption,
    ToolErrorKind,
> {
    match alg {
        Algorithm::AsymmetricEncryption(enc) => Ok(enc),
        Algorithm::Cipher => Err(ToolErrorKind::NotSupported),
        Algorithm::Aead => Err(ToolErrorKind::NotSupported),
        _ => Err(ToolErrorKind::WrongKeyAlgorithm),
    }
}

/// Checks that a key's permitted algorithm can serve an encryption or
/// decryption command, following `spec_encryption_algorithm`.
pub fn encryption_algorithm(alg: Algorithm) -> (r: Result<AsymmetricEncryption, ToolErrorKind>)
    ensures
        r == spec_encryption_algorithm(alg),
{
    match alg {
        Algorithm::AsymmetricEncryption(enc) => Ok(enc),
        Algorithm::Cipher => Err(ToolErrorKind::NotSupported),
        Algorithm::Aead => Err(ToolErrorKind::NotSupported),
        _ => Err(ToolErrorKind::WrongKeyAlgorithm),
    }
}

/// The standard base64 text of a byte sequence, with padding. The text is a
/// function of the input alone.
pub uninterp spec fn base64_of(data: Seq<u8>) -> Seq<char>;

/// Relies on base64::encode: the standard alphabet with padding, determined
/// by the input alone; an empty input encodes to an empty string.
#[verifier::external_body]
fn base64_encode(data: &[u8]) -> (r: String)
    ensures
        r@ == base64_of(data@),
        data@.len() == 0 ==> r@.len() == 0,
{
    base64::encode(data)
}

/// Whether a text is valid standard base64, and the bytes it decodes to.
/// Both are functions of the input alone.
pub uninterp spec fn base64_decode_of(text: Seq<char>) -> Option<Seq<u8>>;

/// Relies on base64::decode: success and the decoded bytes are determined
/// by the input alone.
#[verifier::external_body]
fn base64_decode(text: &str) -> (r: Option<Vec<u8>>)
    ensures
        r matches Some(v) ==> base64_decode_of(text@) == Some(v@),
        r is None ==> base64_decode_of(text@) is None,
{
    base64::decode(text).ok()
}

/// Encodes bytes as base64 text for command output.
pub fn encode_base64_output(data: &[u8]) -> (r: String)
    ensures
        r@ == base64_of(data@),
{
    base64_encode(data)
}

/// Decodes a command's base64 input text, failing with a decoding error on
/// text that is not valid base64.
pub fn decode_base64_input(text: &str) -> (r: Result<Vec<u8>, ToolErrorKind>)
    ensures
        r matches Ok(v) ==> base64_decode_of(text@) == Some(v@),
        r matches Err(e) ==> (e == ToolErrorKind::DecodingError && base64_decode_of(text@)
            is None),
{
    match base64_decode(text) {
        Some(v) => Ok(v),
        None => Err(ToolErrorKind::DecodingError),
    }
}

} // verus!
