//! The error algebra shared by every fallible operation of the core.

use vstd::prelude::*;

verus! {

/// A per-request failure. Nothing here is fatal to the host process: each
/// variant is reported to the caller of the failing operation and the
/// collaborators (worker pool, caches) stay usable.
#[derive(Debug, Clone, PartialEq, Eq)]
pub enum EthApiError {
    /// The block reference does not resolve to an existing block.
    UnknownBlock,
    /// Signature recovery failed on a mined or raw transaction.
    InvalidSignature,
    /// The request carries mutually exclusive fee fields.
    TransactionConflict,
    /// The worker pool rejected the task, or the task aborted.
    ExecutionTaskFailed,
    /// No registered signer manages the requested sender account.
    NoSignerForAccount,
    /// The transaction pool refused admission; the pool's own reason is
    /// carried through unchanged.
    PoolRejected(String),
}

} // verus!
