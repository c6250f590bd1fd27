//! The error taxonomy shared by the registry entry points and the
//! request-processing pipeline.

use vstd::prelude::*;

verus! {

/// Everything that can go wrong in the registry entry points and in the
/// pipeline.
///
/// Registry errors (`DuplicateValidator`, `TooFewValidators`, `NotApproved`,
/// `UnauthorizedCaller`) are surfaced synchronously to the caller and abort
/// only that call, with no state mutated.  Pipeline errors (the `Request*`
/// variants, `NoSuchOwnedContent`, `InsufficientBalance`) are caught per
/// command and cause that command to be abandoned without retry.
#[derive(Clone, Copy, Debug, PartialEq, Eq, Structural)]
pub enum Error {
    /// The validator is already present in the set being added to.
    DuplicateValidator,
    /// Removing the validator would leave fewer active validators than the
    /// configured minimum.
    TooFewValidators,
    /// The validator is not approved for self-service re-addition.
    NotApproved,
    /// Only the validator itself may add itself back after coming online.
    UnauthorizedCaller,
    /// A request to the remote store could not be built.
    RequestConstructionFailed,
    /// A request to the remote store produced no response by its deadline.
    RequestTimedOut,
    /// A request to the remote store failed in transport or in the store.
    RequestFailed,
    /// The owner/content pair does not resolve to any asset on the ledger.
    NoSuchOwnedContent,
    /// The recipient's balance of the resolved asset does not permit the
    /// requested operation.
    InsufficientBalance,
}

} // verus!
