//! The error taxonomy of the protocol.
//!
//! Every operation is atomic: any of these errors means the operation wrote
//! nothing. None of them is retried by the core; a caller may always resubmit
//! the whole operation, because failure implies no partial state.

use vstd::prelude::*;

verus! {

/// Why an operation was rejected.
#[derive(Clone, Copy, Debug, PartialEq, Eq, Structural)]
pub enum ProtocolError {
    /// The derived address for a record to be created is already occupied
    /// (duplicate project seed, or a tier/receipt slot already in use).
    AdmissionConflict,
    /// The caller's identity does not match the authority that the
    /// operation requires.
    AuthorizationFailure,
    /// A referenced record's fields do not match the expected linkage,
    /// for example a wrong collection or mint address, or a referenced
    /// record that does not exist.
    PreconditionMismatch,
    /// The reward tier counter would exceed its 8-bit bound.
    NumericalOverflow,
    /// The external staking or token facility rejected a sub-call, or the
    /// hosting runtime could not derive a program address for a record.
    ExternalProtocolFailure,
    /// The minted receipt's membership in its tier collection could not be
    /// confirmed.
    VerificationFailure,
}

} // verus!
