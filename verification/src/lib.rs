//! Transaction-execution and tracing core of a blockchain node's read-side
//! API layer.
//!
//! Given a reference to a historical or pending block, this library
//! reconstructs the exact execution environment, replays transactions over a
//! write-isolated state overlay, and derives execution results and receipts.
//! Everything that talks to the outside world (persistent storage, the
//! transaction pool, the EVM itself, worker pools) is a collaborator: the
//! library exposes the decision and derivation logic as verified functions
//! and small step machines that a host drives.

pub mod block_ref;
pub mod call;
pub mod env;
pub mod error;
pub mod locator;
pub mod op;
pub mod overlay;
pub mod receipt;
pub mod replay;
pub mod request;
pub mod resolver;
pub mod sign;
pub mod tx;
