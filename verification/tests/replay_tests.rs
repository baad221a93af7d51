use eth_transactions::env::{BlockContext, ChainConfig, ExecutionEnvironment};
use eth_transactions::overlay::{
    Account, AccountChange, SlotWrite, StateDiff, StateOverlay, StateSnapshot,
};
use eth_transactions::replay::{plan_block_replay, BlockReplay, ExecutionOutcome, RecoveredBlock};
use eth_transactions::tx::{RecoveredTransaction, SignedTransaction, TxKind, TxType};

fn transfer_tx(hash: u64, signer: u64, to: u64, nonce: u64) -> RecoveredTransaction {
    RecoveredTransaction {
        signer,
        tx: SignedTransaction {
            hash,
            recovered_signer: Some(signer),
            nonce,
            gas_limit: 21_000,
            max_fee_per_gas: 10,
            max_priority_fee_per_gas: None,
            kind: TxKind::Call(to),
            value: 1,
            tx_type: TxType::Legacy,
            blob_gas_used: None,
        },
    }
}

fn test_env() -> ExecutionEnvironment {
    ExecutionEnvironment {
        cfg: ChainConfig { chain_id: 1, fork: 15 },
        block: BlockContext {
            coinbase: 0xc0,
            number: 42,
            timestamp: 1_700_000_000,
            gas_limit: 30_000_000,
            base_fee: 7,
            difficulty: 0,
            prevrandao: Some(0x99),
            excess_blob_gas: None,
        },
    }
}

fn three_tx_block() -> RecoveredBlock {
    RecoveredBlock {
        hash: 0xb10c,
        parent_hash: 0xb0ff,
        number: 42,
        base_fee: Some(7),
        transactions: vec![
            transfer_tx(0xa0, 1, 2, 0),
            transfer_tx(0xa1, 2, 3, 0),
            transfer_tx(0xa2, 3, 4, 0),
        ],
    }
}

fn account(balance: u128, nonce: u64) -> Account {
    Account { balance, nonce }
}

fn base_snapshot() -> StateSnapshot {
    StateSnapshot {
        accounts: vec![
            AccountChange { address: 1, account: account(100, 0) },
            AccountChange { address: 2, account: account(50, 0) },
            AccountChange { address: 3, account: account(7, 0) },
        ],
        storage: vec![SlotWrite { address: 1, slot: 5, value: 11 }],
    }
}

fn diff(changes: Vec<AccountChange>) -> StateDiff {
    StateDiff { accounts: changes, storage: Vec::new() }
}

fn outcome(gas: u64, d: StateDiff) -> ExecutionOutcome {
    ExecutionOutcome { gas_used: gas, success: true, output: Vec::new(), diff: d }
}

#[test]
fn plan_covers_the_whole_block_without_a_limit() {
    let block = three_tx_block();
    let plan = plan_block_replay(&block, &test_env(), None);
    assert_eq!(plan.len(), 3);
    for (i, p) in plan.iter().enumerate() {
        assert_eq!(p.info.index, Some(i as u64));
        assert_eq!(p.info.hash, Some(block.transactions[i].tx.hash));
        assert_eq!(p.info.block_hash, Some(0xb10c));
        assert_eq!(p.info.block_number, Some(42));
        assert_eq!(p.info.base_fee, Some(7));
        assert_eq!(p.tx, block.transactions[i]);
    }
}

#[test]
fn plan_truncates_to_the_limit_in_position_order() {
    let block = three_tx_block();
    let plan = plan_block_replay(&block, &test_env(), Some(2));
    assert_eq!(plan.len(), 2);
    assert_eq!(plan[0].info.index, Some(0));
    assert_eq!(plan[1].info.index, Some(1));
}

#[test]
fn plan_with_a_large_limit_covers_the_block_only() {
    let block = three_tx_block();
    assert_eq!(plan_block_replay(&block, &test_env(), Some(10)).len(), 3);
    assert_eq!(plan_block_replay(&block, &test_env(), Some(0)).len(), 0);
}

#[test]
fn three_transfers_carry_balances_across_the_replay() {
    // A block of three transfers: 1 pays 2, then 2 pays 3, then 3 pays 4.
    // The overlay starts from the parent state only; transaction 2 must see
    // account 3's balance as transaction 1 left it.
    let block = three_tx_block();
    let env = test_env();
    let plan = plan_block_replay(&block, &env, None);
    let mut replay = BlockReplay::new(env, plan, base_snapshot());

    assert_eq!(replay.overlay.account(1), account(100, 0));
    assert_eq!(replay.overlay.account(3), account(7, 0));

    // transaction 0: account 1 pays 10 to account 2
    assert_eq!(replay.current().info.index, Some(0));
    replay.record(outcome(
        21_000,
        diff(vec![
            AccountChange { address: 1, account: account(90, 1) },
            AccountChange { address: 2, account: account(60, 0) },
        ]),
    ));
    assert_eq!(replay.overlay.account(1), account(90, 1));
    assert_eq!(replay.overlay.account(2), account(60, 0));

    // transaction 1: account 2 pays 5 to account 3
    assert_eq!(replay.current().info.index, Some(1));
    replay.record(outcome(
        21_000,
        diff(vec![
            AccountChange { address: 2, account: account(55, 1) },
            AccountChange { address: 3, account: account(12, 0) },
        ]),
    ));

    // transaction 2's sender is account 3: its balance reflects transaction
    // 1's effect, not the parent state
    assert_eq!(replay.current().info.index, Some(2));
    assert_eq!(replay.overlay.account(3), account(12, 0));
    assert_eq!(replay.overlay.account(2), account(55, 1));

    // the final outcome is recorded but not committed: the overlay is done
    replay.record(outcome(
        21_000,
        diff(vec![
            AccountChange { address: 3, account: account(9, 1) },
            AccountChange { address: 4, account: account(3, 0) },
        ]),
    ));
    assert!(replay.is_done());
    assert_eq!(replay.overlay.account(3), account(12, 0));
    assert_eq!(replay.overlay.account(4), account(0, 0));

    let outcomes = replay.finish();
    assert_eq!(outcomes.len(), 3);
    assert_eq!(outcomes[0].gas_used, 21_000);
}

#[test]
fn replay_matches_committing_the_same_diffs_by_hand() {
    let block = three_tx_block();
    let env = test_env();
    let d0 = diff(vec![AccountChange { address: 1, account: account(90, 1) }]);
    let d1 = diff(vec![AccountChange { address: 1, account: account(80, 2) }]);

    let plan = plan_block_replay(&block, &env, None);
    let mut replay = BlockReplay::new(env, plan, base_snapshot());
    replay.record(outcome(1, d0.clone()));
    replay.record(outcome(1, d1.clone()));

    let mut by_hand = StateOverlay::new(base_snapshot());
    by_hand.commit(&d0);
    by_hand.commit(&d1);

    assert_eq!(replay.overlay.account(1), by_hand.account(1));
    assert_eq!(replay.overlay.account(2), by_hand.account(2));
}

#[test]
fn overlay_reads_writes_over_base_and_defaults_to_empty() {
    let mut overlay = StateOverlay::new(base_snapshot());
    assert_eq!(overlay.account(1), account(100, 0));
    assert_eq!(overlay.account(9), account(0, 0));
    assert_eq!(overlay.storage(1, 5), 11);
    assert_eq!(overlay.storage(1, 6), 0);

    overlay.commit(&StateDiff {
        accounts: vec![AccountChange { address: 1, account: account(1, 3) }],
        storage: vec![SlotWrite { address: 1, slot: 5, value: 99 }],
    });
    assert_eq!(overlay.account(1), account(1, 3));
    assert_eq!(overlay.storage(1, 5), 99);
    // untouched parts still read through to the base
    assert_eq!(overlay.account(2), account(50, 0));
}

#[test]
fn transactions_are_found_by_block_and_position() {
    let block = three_tx_block();
    let (tx, info) =
        eth_transactions::locator::transaction_by_block_and_tx_index(&block, 1).unwrap();
    assert_eq!(tx, block.transactions[1]);
    assert_eq!(info.index, Some(1));
    assert_eq!(info.hash, Some(0xa1));
    assert_eq!(info.block_hash, Some(0xb10c));
    assert_eq!(info.block_number, Some(42));
    assert_eq!(info.base_fee, Some(7));
    assert!(eth_transactions::locator::transaction_by_block_and_tx_index(&block, 3).is_none());
}

#[test]
fn later_commits_override_earlier_ones() {
    let mut overlay = StateOverlay::new(base_snapshot());
    overlay.commit(&diff(vec![AccountChange { address: 1, account: account(90, 1) }]));
    overlay.commit(&diff(vec![AccountChange { address: 1, account: account(80, 2) }]));
    assert_eq!(overlay.account(1), account(80, 2));
}
