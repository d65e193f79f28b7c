//! Why an operation on an event record is refused.

use vstd::prelude::*;

verus! {

/// Why stored bytes are not an event record.
#[derive(Clone, Copy, Debug, PartialEq, Eq, Structural)]
pub enum DecodeError {
    /// The buffer does not have the length of the fixed layout.
    SizeMismatch,
    /// The buffer has the right length but its status byte names no status.
    InvalidStatus,
}

/// A refusal reported by the ledger that moves funds.
#[derive(Clone, Copy, Debug, PartialEq, Eq, Structural)]
pub struct TransferError {
    /// The ledger's own code for the refusal.
    pub code: u64,
}

/// Why an operation failed. Whatever the kind, the stored record is left
/// exactly as it was.
#[derive(Clone, Copy, Debug, PartialEq, Eq, Structural)]
pub enum CoreError {
    /// The stored bytes are not an event record.
    DecodeError(DecodeError),
    /// The record's storage belongs to another authority than the one that
    /// runs the operation.
    OwnershipMismatch,
    /// The record has not been initialized yet.
    NotInitialized,
    /// The record has been initialized before.
    AlreadyInitialized,
    /// No signing capability was presented for the identity claimed as creator.
    MissingAuthorization,
    /// An identity or the event id of the command differs from the stored one.
    FieldMismatch,
    /// The funding party holds less than the amount to move.
    InsufficientFunds,
    /// An amount would fall below zero.
    ArithmeticUnderflow,
    /// The record is completed or terminated and the operation needs it active.
    TerminalStateViolation,
    /// The ledger refused the transfer.
    TransferFailed(TransferError),
}

} // verus!
