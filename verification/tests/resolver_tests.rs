use eth_transactions::block_ref::{BlockNumberOrTag, BlockReference};
use eth_transactions::env::{
    evm_env_for_raw_block, BlockContext, ChainConfig, ExecutionEnvironment, Header, FORK_MERGE,
};
use eth_transactions::error::EthApiError;
use eth_transactions::resolver::{
    resolve_env_on_block_hash, resolve_env_on_cached, resolve_env_on_pending, resolve_env_start,
    EnvResolution,
};

fn context() -> BlockContext {
    BlockContext {
        coinbase: 0xc0,
        number: 41,
        timestamp: 1_000,
        gas_limit: 30_000_000,
        base_fee: 9,
        difficulty: 131_072,
        prevrandao: None,
        excess_blob_gas: None,
    }
}

fn env_with_fork(fork: u64) -> ExecutionEnvironment {
    ExecutionEnvironment { cfg: ChainConfig { chain_id: 1, fork }, block: context() }
}

fn header() -> Header {
    Header {
        parent_hash: 0xdead,
        beneficiary: 0xbe,
        number: 42,
        timestamp: 2_000,
        gas_limit: 29_000_000,
        base_fee: Some(8),
        difficulty: 200_000,
        mix_hash: 0x4a,
        excess_blob_gas: Some(3),
    }
}

#[test]
fn pending_resolution_never_touches_the_cache() {
    let start = resolve_env_start(&BlockReference::pending());
    assert_eq!(start, EnvResolution::NeedPendingEnv);

    let done = resolve_env_on_pending(&env_with_fork(FORK_MERGE));
    match done {
        EnvResolution::Done(_, at) => {
            assert!(at.is_pending());
            assert_eq!(at.as_block_hash(), None);
        }
        other => panic!("pending resolution must finish, got {:?}", other),
    }
}

#[test]
fn concrete_references_resolve_through_hash_and_cache() {
    let at = BlockReference::Number(BlockNumberOrTag::Latest);
    assert_eq!(resolve_env_start(&at), EnvResolution::NeedBlockHash(at));

    assert_eq!(resolve_env_on_block_hash(&Some(0x1234)), EnvResolution::NeedCachedEnv(0x1234));

    let cfg = ChainConfig { chain_id: 1, fork: FORK_MERGE };
    let done = resolve_env_on_cached(0x1234, &cfg, &context());
    match done {
        EnvResolution::Done(env, at) => {
            assert_eq!(env.cfg, cfg);
            assert_eq!(env.block, context());
            assert_eq!(at.as_block_hash(), Some(0x1234));
        }
        other => panic!("cached resolution must finish, got {:?}", other),
    }
}

#[test]
fn unresolvable_references_are_unknown_blocks() {
    assert_eq!(
        resolve_env_on_block_hash(&None),
        EnvResolution::Failed(EthApiError::UnknownBlock)
    );
}

#[test]
fn raw_block_env_overlays_the_header_post_merge() {
    let env = evm_env_for_raw_block(&env_with_fork(FORK_MERGE), &header());
    assert_eq!(env.cfg, ChainConfig { chain_id: 1, fork: FORK_MERGE });
    assert_eq!(env.block.coinbase, 0xbe);
    assert_eq!(env.block.number, 42);
    assert_eq!(env.block.timestamp, 2_000);
    assert_eq!(env.block.gas_limit, 29_000_000);
    assert_eq!(env.block.base_fee, 8);
    assert_eq!(env.block.difficulty, 0);
    assert_eq!(env.block.prevrandao, Some(0x4a));
    assert_eq!(env.block.excess_blob_gas, Some(3));
}

#[test]
fn raw_block_env_keeps_difficulty_pre_merge() {
    let env = evm_env_for_raw_block(&env_with_fork(FORK_MERGE - 1), &header());
    assert_eq!(env.block.difficulty, 200_000);
    assert_eq!(env.block.prevrandao, None);
}

#[test]
fn raw_block_env_defaults_a_missing_base_fee_to_zero() {
    let mut h = header();
    h.base_fee = None;
    let env = evm_env_for_raw_block(&env_with_fork(FORK_MERGE), &h);
    assert_eq!(env.block.base_fee, 0);
}

#[test]
fn block_references_classify_themselves() {
    assert!(BlockReference::pending().is_pending());
    assert!(!BlockReference::from_hash(5).is_pending());
    assert_eq!(BlockReference::from_hash(5).as_block_hash(), Some(5));
    assert_eq!(
        BlockReference::Number(BlockNumberOrTag::Number(9)).as_block_hash(),
        None
    );
}
