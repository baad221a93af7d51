//! References to blocks: a distinguished chain position, an exact height, or
//! a block hash. A reference identifies a unique historical state, or the
//! synthetic "pending" state.
//!
//! Hashes and addresses are carried throughout this library as compact `u64`
//! identifiers: the logic only ever compares them and keys collections by
//! them, so the identifier stands in for the wire-level digest that the host
//! owns.

use vstd::prelude::*;

verus! {

/// A block height tag: a distinguished chain position, or an exact height.
#[derive(Debug, Clone, Copy, PartialEq, Eq, Structural)]
pub enum BlockNumberOrTag {
    /// The most recent canonical block.
    Latest,
    /// The genesis block.
    Earliest,
    /// The node's locally assembled, not yet finalized next block.
    Pending,
    /// The most recent block considered safe by consensus.
    Safe,
    /// The most recent finalized block.
    Finalized,
    /// An exact block height.
    Number(u64),
}

/// Identifies a unique historical state, or the synthetic "pending" state.
#[derive(Debug, Clone, Copy, PartialEq, Eq, Structural)]
pub enum BlockReference {
    /// By height tag.
    Number(BlockNumberOrTag),
    /// By block hash, optionally insisting that the hash be canonical.
    Hash { hash: u64, require_canonical: bool },
}

impl BlockReference {
    /// The synthetic "pending" reference.
    pub fn pending() -> (r: Self)
        ensures
            r == BlockReference::Number(BlockNumberOrTag::Pending),
    {
        BlockReference::Number(BlockNumberOrTag::Pending)
    }

    /// A reference to the block with the given canonical hash.
    pub fn from_hash(hash: u64) -> (r: Self)
        ensures
            r == (BlockReference::Hash { hash, require_canonical: false }),
    {
        BlockReference::Hash { hash, require_canonical: false }
    }

    /// Whether this is the synthetic "pending" reference.
    pub open spec fn spec_is_pending(self) -> bool {
        self == BlockReference::Number(BlockNumberOrTag::Pending)
    }

    /// Whether this is the synthetic "pending" reference.
    pub fn is_pending(&self) -> (r: bool)
        ensures
            r == self.spec_is_pending(),
    {
        matches!(self, BlockReference::Number(BlockNumberOrTag::Pending))
    }

    /// The concrete block hash this reference names, if it names one.
    pub open spec fn spec_as_block_hash(self) -> Option<u64> {
        match self {
            BlockReference::Hash { hash, .. } => Some(hash),
            BlockReference::Number(_) => None,
        }
    }

    /// The concrete block hash this reference names, if it names one.
    pub fn as_block_hash(&self) -> (r: Option<u64>)
        ensures
            r == self.spec_as_block_hash(),
    {
        match self {
            BlockReference::Hash { hash, .. } => Some(*hash),
            BlockReference::Number(_) => None,
        }
    }
}

} // verus!
