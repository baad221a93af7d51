//! The execution-environment resolver.
//!
//! Resolution needs collaborators the host owns: the storage provider (to
//! turn a reference into a canonical hash), the memoizing environment cache
//! (keyed by hash), and the pending-block provider. The resolver is therefore
//! a step machine: each function takes a collaborator's answer and says what
//! must happen next, and the host performs the asked-for query between steps.

use vstd::prelude::*;

use crate::block_ref::{BlockNumberOrTag, BlockReference};
use crate::env::{BlockContext, ChainConfig, ExecutionEnvironment};
use crate::error::EthApiError;

verus! {

/// The next step of an environment resolution.
#[derive(Debug, Clone, PartialEq, Eq)]
pub enum EnvResolution {
    /// Ask the pending-block provider for the synthetic pending environment.
    NeedPendingEnv,
    /// Ask the storage provider to resolve this reference to a canonical
    /// block hash.
    NeedBlockHash(BlockReference),
    /// Ask the memoizing environment cache for the environment of the block
    /// with this hash.
    NeedCachedEnv(u64),
    /// Resolution finished: the environment, and the resolved identity it
    /// was built for (the pending marker, or the concrete hash used).
    Done(ExecutionEnvironment, BlockReference),
    /// Resolution failed.
    Failed(EthApiError),
}

/// First step for a reference: pending goes to the pending-block provider,
/// anything else is resolved to a canonical hash first.
pub open spec fn spec_resolve_env_start(at: BlockReference) -> EnvResolution {
    if at.spec_is_pending() {
        EnvResolution::NeedPendingEnv
    } else {
        EnvResolution::NeedBlockHash(at)
    }
}

/// Begins resolving the execution environment for a block reference.
pub fn resolve_env_start(at: &BlockReference) -> (r: EnvResolution)
    ensures
        r == spec_resolve_env_start(*at),
{
    if at.is_pending() {
        EnvResolution::NeedPendingEnv
    } else {
        EnvResolution::NeedBlockHash(*at)
    }
}

/// Second step for a concrete reference: a resolved hash is looked up in the
/// environment cache; a reference that resolves to no hash is unknown.
pub open spec fn spec_resolve_env_on_block_hash(resp: Option<u64>) -> EnvResolution {
    match resp {
        Some(hash) => EnvResolution::NeedCachedEnv(hash),
        None => EnvResolution::Failed(EthApiError::UnknownBlock),
    }
}

/// Continues a resolution with the storage provider's answer to the
/// hash query.
pub fn resolve_env_on_block_hash(resp: &Option<u64>) -> (r: EnvResolution)
    ensures
        r == spec_resolve_env_on_block_hash(*resp),
{
    match resp {
        Some(hash) => EnvResolution::NeedCachedEnv(*hash),
        None => EnvResolution::Failed(EthApiError::UnknownBlock),
    }
}

/// Final step for a concrete reference: the cached environment is returned,
/// and the resolved identity is the hash the cache was keyed by.
pub open spec fn spec_resolve_env_on_cached(
    hash: u64,
    cfg: ChainConfig,
    block: BlockContext,
) -> EnvResolution {
    EnvResolution::Done(
        ExecutionEnvironment { cfg, block },
        BlockReference::Hash { hash, require_canonical: false },
    )
}

/// Completes a resolution with the environment the cache memoized for
/// `hash`.
pub fn resolve_env_on_cached(hash: u64, cfg: &ChainConfig, block: &BlockContext) -> (r:
    EnvResolution)
    ensures
        r == spec_resolve_env_on_cached(hash, *cfg, *block),
{
    EnvResolution::Done(
        ExecutionEnvironment { cfg: *cfg, block: *block },
        BlockReference::Hash { hash, require_canonical: false },
    )
}

/// Final step for the pending reference: the synthetic environment derived
/// from the locally assembled pending block is returned as-is, and the
/// resolved identity is the pending marker itself, never a persisted hash.
pub open spec fn spec_resolve_env_on_pending(env: ExecutionEnvironment) -> EnvResolution {
    EnvResolution::Done(env, BlockReference::Number(BlockNumberOrTag::Pending))
}

/// Completes a resolution with the pending-block provider's synthetic
/// environment.
pub fn resolve_env_on_pending(env: &ExecutionEnvironment) -> (r: EnvResolution)
    ensures
        r == spec_resolve_env_on_pending(*env),
{
    EnvResolution::Done(*env, BlockReference::Number(BlockNumberOrTag::Pending))
}

/// Pending isolation: resolving the environment for the pending reference
/// goes straight to the pending-block provider — it never asks the storage
/// provider for a hash and never asks the persisted-block environment cache
/// — and the identity it resolves to is the pending marker, never a concrete
/// block hash.
pub proof fn lemma_pending_isolation(at: BlockReference, env: ExecutionEnvironment)
    requires
        at.spec_is_pending(),
    ensures
        spec_resolve_env_start(at) == EnvResolution::NeedPendingEnv,
        !(spec_resolve_env_start(at) is NeedBlockHash),
        !(spec_resolve_env_start(at) is NeedCachedEnv),
        spec_resolve_env_on_pending(env) == EnvResolution::Done(
            env,
            BlockReference::Number(BlockNumberOrTag::Pending),
        ),
        (spec_resolve_env_on_pending(env)->Done_1).spec_as_block_hash() is None,
{
}

} // verus!
