use vstd::prelude::*;

verus! {

/// Every way an operation of this layer can fail.
#[derive(Clone, Debug, PartialEq, Eq)]
pub enum LedgerError {
    /// A signing request was made for a zero-length message.
    EmptyMessage,
    /// The message needs more packets than the one-byte packet count allows.
    MessageTooLarge,
    /// The derivation path has more than ten components.
    InvalidDerivationPath,
    /// The version reply is malformed or too short.
    InvalidVersion,
    /// The public-key reply does not hold exactly 32 bytes.
    InvalidPK,
    /// The signing reply does not hold exactly 64 bytes.
    InvalidSignature,
    /// The signing reply is empty.
    NoSignature,
    /// The device transport failed; its own description is carried as is.
    Transport(String),
}

} // verus!
