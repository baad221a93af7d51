//! The execution environment: the full parameter set needed to execute a
//! transaction identically to how it executed historically. A `ChainConfig`
//! holds the protocol parameters, a `BlockContext` the per-block ones; the
//! pair is immutable once constructed and shared read-only across all
//! transactions of one replay.

use vstd::prelude::*;

verus! {

/// The scheduled position of the merge upgrade in the protocol's fork
/// ordering; forks at or after this position use the post-merge randomness
/// rules.
pub const FORK_MERGE: u64 = 15;

/// Protocol parameters: the chain identifier and the active fork, given as
/// its position in the protocol's fork ordering.
#[derive(Debug, Clone, Copy, PartialEq, Eq, Structural)]
pub struct ChainConfig {
    pub chain_id: u64,
    pub fork: u64,
}

impl ChainConfig {
    /// Whether the active fork is at or after the merge upgrade.
    pub open spec fn spec_is_post_merge(self) -> bool {
        self.fork >= FORK_MERGE
    }

    /// Whether the active fork is at or after the merge upgrade.
    pub fn is_post_merge(&self) -> (r: bool)
        ensures
            r == self.spec_is_post_merge(),
    {
        self.fork >= FORK_MERGE
    }
}

/// Per-block execution parameters for the block a transaction executes
/// against.
#[derive(Debug, Clone, Copy, PartialEq, Eq)]
pub struct BlockContext {
    pub coinbase: u64,
    pub number: u64,
    pub timestamp: u64,
    pub gas_limit: u64,
    pub base_fee: u64,
    /// Pre-merge difficulty; zero once the randomness beacon replaces it.
    pub difficulty: u64,
    /// Post-merge randomness; absent before the merge.
    pub prevrandao: Option<u64>,
    /// Blob-gas accounting carried by blocks that price blob data.
    pub excess_blob_gas: Option<u64>,
}

/// The pair a resolver produces: protocol parameters plus the per-block
/// context.
#[derive(Debug, Clone, Copy, PartialEq, Eq)]
pub struct ExecutionEnvironment {
    pub cfg: ChainConfig,
    pub block: BlockContext,
}

/// A raw, unsealed block header, as supplied out-of-band for tracing. Only
/// the fields the environment derivation reads are modeled.
#[derive(Debug, Clone, Copy, PartialEq, Eq)]
pub struct Header {
    pub parent_hash: u64,
    pub beneficiary: u64,
    pub number: u64,
    pub timestamp: u64,
    pub gas_limit: u64,
    pub base_fee: Option<u64>,
    pub difficulty: u64,
    /// Carries the randomness value for post-merge headers.
    pub mix_hash: u64,
    pub excess_blob_gas: Option<u64>,
}

/// Overlays a raw header's own fields onto a block context, with the given
/// coinbase. Post-merge, difficulty is zeroed and the header's randomness is
/// used; pre-merge, the header's difficulty stands and no randomness is set.
pub fn apply_header_to_context(
    ctx: &mut BlockContext,
    header: &Header,
    post_merge: bool,
    coinbase: u64,
)
    ensures
        final(ctx).coinbase == coinbase,
        final(ctx).number == header.number,
        final(ctx).timestamp == header.timestamp,
        final(ctx).gas_limit == header.gas_limit,
        final(ctx).base_fee == (match header.base_fee {
            Some(f) => f,
            None => 0u64,
        }),
        final(ctx).difficulty == (if post_merge {
            0u64
        } else {
            header.difficulty
        }),
        final(ctx).prevrandao == (if post_merge {
            Some(header.mix_hash)
        } else {
            None::<u64>
        }),
        final(ctx).excess_blob_gas == header.excess_blob_gas,
{
    ctx.coinbase = coinbase;
    ctx.number = header.number;
    ctx.timestamp = header.timestamp;
    ctx.gas_limit = header.gas_limit;
    ctx.base_fee = match header.base_fee {
        Some(f) => f,
        None => 0,
    };
    if post_merge {
        ctx.difficulty = 0;
        ctx.prevrandao = Some(header.mix_hash);
    } else {
        ctx.difficulty = header.difficulty;
        ctx.prevrandao = None;
    }
    ctx.excess_blob_gas = header.excess_blob_gas;
}

/// Computes the execution environment for a raw, unsealed header, given the
/// already-resolved environment of its parent: the protocol parameters are
/// kept, and the header's own coinbase, timestamp and fork-dependent fields
/// are overlaid. This bypasses the environment cache because the header is
/// not a known chain block.
pub fn evm_env_for_raw_block(parent_env: &ExecutionEnvironment, header: &Header) -> (r:
    ExecutionEnvironment)
    ensures
        r.cfg == parent_env.cfg,
        r.block.coinbase == header.beneficiary,
        r.block.number == header.number,
        r.block.timestamp == header.timestamp,
        r.block.gas_limit == header.gas_limit,
        r.block.base_fee == (match header.base_fee {
            Some(f) => f,
            None => 0u64,
        }),
        r.block.difficulty == (if parent_env.cfg.spec_is_post_merge() {
            0u64
        } else {
            header.difficulty
        }),
        r.block.prevrandao == (if parent_env.cfg.spec_is_post_merge() {
            Some(header.mix_hash)
        } else {
            None::<u64>
        }),
        r.block.excess_blob_gas == header.excess_blob_gas,
{
    let post_merge = parent_env.cfg.is_post_merge();
    let mut block = parent_env.block;
    apply_header_to_context(&mut block, header, post_merge, header.beneficiary);
    ExecutionEnvironment { cfg: parent_env.cfg, block }
}

} // verus!
