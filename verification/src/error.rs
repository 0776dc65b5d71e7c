//! The ways in which an operation on a wallet record can be refused.
use vstd::prelude::*;

verus! {

/// Why an operation was refused. A refused operation changes nothing.
#[derive(Clone, Copy, Debug, PartialEq, Eq, Structural)]
pub enum WalletError {
    /// The address is not one of the wallet's owners.
    InvalidOwner,
    /// The owner list would hold an address twice.
    DuplicateOwner,
    /// The owner list would be longer than the wallet has room for.
    TooManyOwners,
    /// The threshold would be zero or above the number of owners.
    InvalidThreshold,
    /// The minimum delay or the grace period is negative.
    InvalidDelay,
    /// The proposed execution time comes before the wallet's minimum delay has passed.
    InvalidETA,
    /// The owner set has changed since the record was created.
    StaleOwnerSet,
    /// Fewer owners have approved than the threshold asks for.
    ThresholdNotMet,
    /// The execution time has not been reached yet.
    TransactionNotReady,
    /// The grace period after the transaction's execution time has passed.
    TransactionExpired,
    /// The grace period after the buffer's execution time has passed.
    BundleExpired,
    /// The record has already been executed.
    AlreadyExecuted,
    /// The bundle index is beyond the end of the buffer.
    BufferBundleNotFound,
    /// The buffer has been finalized and can no longer change.
    BufferFinalized,
    /// The buffer has not been finalized yet, so nothing in it can run.
    BufferNotFinalized,
    /// The caller is not the buffer's executor.
    InvalidExecutor,
    /// The subaccount can act only through an approved transaction.
    QuorumRequired,
    /// A counter has reached its largest value.
    Overflow,
}

} // verus!
