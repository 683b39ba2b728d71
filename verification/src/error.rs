//! Error kinds for the tool's own policy and encoding logic.

use vstd::prelude::*;

verus! {

/// Errors originating in the tool itself, as opposed to errors forwarded
/// from the remote service or from the transport layer.
#[derive(Clone, Copy, Debug, PartialEq, Eq, Structural)]
pub enum ToolErrorKind {
    /// The requested combination of algorithm, hash, key type, bit length or
    /// curve has no supported mapping or encoding.
    NotSupported,
    /// The key was not created with an algorithm compatible with the
    /// requested operation.
    WrongKeyAlgorithm,
    /// A command expected input data that was not given.
    NoInput,
    /// Input bytes violate a stated precondition, such as an odd-length raw
    /// ECDSA signature or an unparsable PKCS#1 structure.
    DecodingError,
}

} // verus!
