//! The transaction locator: finds a transaction by hash across mined history
//! and the pending pool, unifying the two into one tagged result.
//!
//! The two lookups are queries to collaborators, so locating is a step
//! machine: history is asked first, and the pool is consulted only when
//! history misses.

use vstd::prelude::*;

use crate::block_ref::BlockReference;
use crate::error::EthApiError;
use crate::receipt::TransactionMeta;
use crate::replay::RecoveredBlock;
use crate::tx::{RecoveredTransaction, SignedTransaction, TransactionInfo};

verus! {

/// Represents from where a transaction was fetched.
#[derive(Debug, Clone, Copy, PartialEq, Eq)]
pub enum TransactionSource {
    /// The transaction sits in the pool, pending inclusion.
    Pool(RecoveredTransaction),
    /// The transaction is already part of a block, mined or pending.
    Block {
        transaction: RecoveredTransaction,
        /// Position of the transaction in the block.
        index: u64,
        block_hash: u64,
        block_number: u64,
        /// Base fee of the block.
        base_fee: Option<u64>,
    },
}

impl TransactionSource {
    /// Consumes the source and returns the wrapped transaction.
    pub fn into_recovered(self) -> (r: RecoveredTransaction)
        ensures
            r == (match self {
                TransactionSource::Pool(tx) => tx,
                TransactionSource::Block { transaction, .. } => transaction,
            }),
    {
        match self {
            TransactionSource::Pool(tx) => tx,
            TransactionSource::Block { transaction, .. } => transaction,
        }
    }

    /// Returns the transaction and its positional data: a pool transaction
    /// has none but its hash, a mined one carries its block coordinates.
    pub fn split(self) -> (r: (RecoveredTransaction, TransactionInfo))
        ensures
            r == (match self {
                TransactionSource::Pool(tx) => (
                    tx,
                    TransactionInfo {
                        hash: Some(tx.tx.hash),
                        index: None,
                        block_hash: None,
                        block_number: None,
                        base_fee: None,
                    },
                ),
                TransactionSource::Block {
                    transaction,
                    index,
                    block_hash,
                    block_number,
                    base_fee,
                } => (
                    transaction,
                    TransactionInfo {
                        hash: Some(transaction.tx.hash),
                        index: Some(index),
                        block_hash: Some(block_hash),
                        block_number: Some(block_number),
                        base_fee,
                    },
                ),
            }),
    {
        match self {
            TransactionSource::Pool(tx) => {
                let hash = tx.tx.hash;
                (
                    tx,
                    TransactionInfo {
                        hash: Some(hash),
                        index: None,
                        block_hash: None,
                        block_number: None,
                        base_fee: None,
                    },
                )
            },
            TransactionSource::Block { transaction, index, block_hash, block_number, base_fee } => {
                let hash = transaction.tx.hash;
                (
                    transaction,
                    TransactionInfo {
                        hash: Some(hash),
                        index: Some(index),
                        block_hash: Some(block_hash),
                        block_number: Some(block_number),
                        base_fee,
                    },
                )
            },
        }
    }

    /// The block reference a caller should read this source at: the block's
    /// own hash for a mined transaction, the synthetic pending reference for
    /// a pool transaction.
    pub fn block_reference(&self) -> (r: BlockReference)
        ensures
            r == (match self {
                TransactionSource::Pool(_) => BlockReference::Number(
                    crate::block_ref::BlockNumberOrTag::Pending,
                ),
                TransactionSource::Block { block_hash, .. } => BlockReference::Hash {
                    hash: *block_hash,
                    require_canonical: false,
                },
            }),
    {
        match self {
            TransactionSource::Pool(_) => BlockReference::pending(),
            TransactionSource::Block { block_hash, .. } => BlockReference::from_hash(*block_hash),
        }
    }

    /// The hash of the sealed block holding this transaction. A pool
    /// transaction has no sealed block, so it yields nothing — fetching the
    /// owning block is undefined for it.
    pub fn historical_block_hash(&self) -> (r: Option<u64>)
        ensures
            r == (match self {
                TransactionSource::Pool(_) => None::<u64>,
                TransactionSource::Block { block_hash, .. } => Some(*block_hash),
            }),
    {
        match self {
            TransactionSource::Pool(_) => None,
            TransactionSource::Block { block_hash, .. } => Some(*block_hash),
        }
    }
}

/// The transaction of a block at the given position, with its positional
/// data; nothing when the block has fewer transactions.
pub fn transaction_by_block_and_tx_index(block: &RecoveredBlock, index: usize) -> (r: Option<
    (RecoveredTransaction, TransactionInfo),
>)
    ensures
        index < block.transactions@.len() ==> r == Some(
            (
                block.transactions@[index as int],
                TransactionInfo {
                    hash: Some(block.transactions@[index as int].tx.hash),
                    index: Some(index as u64),
                    block_hash: Some(block.hash),
                    block_number: Some(block.number),
                    base_fee: block.base_fee,
                },
            ),
        ),
        index >= block.transactions@.len() ==> r is None,
{
    if index < block.transactions.len() {
        let tx = block.transactions[index];
        Some(
            (
                tx,
                TransactionInfo {
                    hash: Some(tx.tx.hash),
                    index: Some(index as u64),
                    block_hash: Some(block.hash),
                    block_number: Some(block.number),
                    base_fee: block.base_fee,
                },
            ),
        )
    } else {
        None
    }
}

/// The next step of a lookup by transaction hash.
#[derive(Debug, Clone, PartialEq, Eq)]
pub enum TransactionLookup {
    /// Ask historical storage for a mined transaction with this hash.
    NeedHistory(u64),
    /// History missed: ask the pending pool for this hash.
    NeedPool(u64),
    /// The lookup finished, with the tagged source or nothing.
    Done(Option<TransactionSource>),
    /// The lookup failed.
    Failed(EthApiError),
}

/// A lookup always begins at historical storage.
pub open spec fn spec_lookup_start(hash: u64) -> TransactionLookup {
    TransactionLookup::NeedHistory(hash)
}

/// Begins locating the transaction with the given hash.
pub fn lookup_start(hash: u64) -> (r: TransactionLookup)
    ensures
        r == spec_lookup_start(hash),
{
    TransactionLookup::NeedHistory(hash)
}

/// What history's answer decides: a hit ends the lookup as a mined source
/// (or fails when the mined transaction's sender cannot be recovered); only
/// a miss sends the lookup on to the pool.
pub open spec fn spec_lookup_on_history(
    hash: u64,
    resp: Option<(SignedTransaction, TransactionMeta)>,
) -> TransactionLookup {
    match resp {
        None => TransactionLookup::NeedPool(hash),
        Some((tx, meta)) => match tx.recovered_signer {
            None => TransactionLookup::Failed(EthApiError::InvalidSignature),
            Some(signer) => TransactionLookup::Done(
                Some(
                    TransactionSource::Block {
                        transaction: RecoveredTransaction { signer, tx },
                        index: meta.index,
                        block_hash: meta.block_hash,
                        block_number: meta.block_number,
                        base_fee: meta.base_fee,
                    },
                ),
            ),
        },
    }
}

/// Continues a lookup with historical storage's answer.
pub fn lookup_on_history(hash: u64, resp: Option<(SignedTransaction, TransactionMeta)>) -> (r:
    TransactionLookup)
    ensures
        r == spec_lookup_on_history(hash, resp),
{
    match resp {
        None => TransactionLookup::NeedPool(hash),
        Some((tx, meta)) => match tx.recover() {
            None => TransactionLookup::Failed(EthApiError::InvalidSignature),
            Some(recovered) => TransactionLookup::Done(
                Some(
                    TransactionSource::Block {
                        transaction: recovered,
                        index: meta.index,
                        block_hash: meta.block_hash,
                        block_number: meta.block_number,
                        base_fee: meta.base_fee,
                    },
                ),
            ),
        },
    }
}

/// The pool's answer ends the lookup either way: a hit is a pool source,
/// a miss means the transaction is nowhere.
pub open spec fn spec_lookup_on_pool(resp: Option<RecoveredTransaction>) -> TransactionLookup {
    match resp {
        Some(tx) => TransactionLookup::Done(Some(TransactionSource::Pool(tx))),
        None => TransactionLookup::Done(None),
    }
}

/// Completes a lookup with the pending pool's answer.
pub fn lookup_on_pool(resp: Option<RecoveredTransaction>) -> (r: TransactionLookup)
    ensures
        r == spec_lookup_on_pool(resp),
{
    match resp {
        Some(tx) => TransactionLookup::Done(Some(TransactionSource::Pool(tx))),
        None => TransactionLookup::Done(None),
    }
}

/// Locator precedence: when history holds the hash, its answer ends the
/// lookup — as a mined source, never a pool one — so the pool is consulted
/// exactly when history misses, and a hash present in both places is always
/// reported from history.
pub proof fn lemma_locator_precedence(
    hash: u64,
    hit: (SignedTransaction, TransactionMeta),
    pooled: RecoveredTransaction,
)
    ensures
        !(spec_lookup_on_history(hash, Some(hit)) is NeedPool),
        (spec_lookup_on_history(hash, Some(hit)) matches TransactionLookup::Done(src)
            ==> src matches Some(s) && s is Block),
        spec_lookup_on_history(hash, None) == TransactionLookup::NeedPool(hash),
        spec_lookup_on_pool(Some(pooled)) == TransactionLookup::Done(
            Some(TransactionSource::Pool(pooled)),
        ),
{
}

} // verus!
