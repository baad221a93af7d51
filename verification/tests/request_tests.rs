use eth_transactions::block_ref::BlockReference;
use eth_transactions::call::{
    complete_blocking_task, prepare_call_context, AccessListItem, CallRequest,
};
use eth_transactions::error::EthApiError;
use eth_transactions::locator::{
    lookup_on_history, lookup_on_pool, lookup_start, TransactionLookup, TransactionSource,
};
use eth_transactions::receipt::TransactionMeta;
use eth_transactions::request::{
    build_typed_transaction, complete_pool_submission, effective_nonce, TransactionRequest,
};
use eth_transactions::sign::find_signer;
use eth_transactions::tx::{RecoveredTransaction, SignedTransaction, TxKind, TxType};

fn plain_call_request() -> CallRequest {
    CallRequest {
        from: None,
        to: Some(9),
        gas: None,
        gas_price: None,
        max_fee_per_gas: None,
        max_priority_fee_per_gas: None,
        value: 3,
        input: vec![1, 2, 3],
        nonce: None,
        chain_id: Some(1),
        access_list: None,
        max_fee_per_blob_gas: None,
        blob_versioned_hashes: None,
    }
}

fn plain_tx_request() -> TransactionRequest {
    TransactionRequest {
        from: Some(5),
        to: Some(9),
        gas_price: None,
        max_fee_per_gas: None,
        max_priority_fee_per_gas: None,
        gas: None,
        value: 3,
        input: vec![1, 2, 3],
        nonce: None,
        access_list: None,
        max_fee_per_blob_gas: None,
        blob_versioned_hashes: None,
    }
}

fn pool_tx(hash: u64) -> RecoveredTransaction {
    RecoveredTransaction {
        signer: 5,
        tx: SignedTransaction {
            hash,
            recovered_signer: Some(5),
            nonce: 0,
            gas_limit: 21_000,
            max_fee_per_gas: 10,
            max_priority_fee_per_gas: None,
            kind: TxKind::Call(6),
            value: 1,
            tx_type: TxType::Legacy,
            blob_gas_used: None,
        },
    }
}

#[test]
fn conflicting_fee_fields_are_rejected() {
    let mut req = plain_call_request();
    req.gas_price = Some(10);
    req.max_fee_per_gas = Some(20);
    assert!(matches!(
        prepare_call_context(req, 1_000_000),
        Err(EthApiError::TransactionConflict)
    ));
    let mut req = plain_call_request();
    req.gas_price = Some(10);
    req.max_priority_fee_per_gas = Some(1);
    assert!(matches!(
        prepare_call_context(req, 1_000_000),
        Err(EthApiError::TransactionConflict)
    ));
}

#[test]
fn call_context_defaults_gas_to_the_cap() {
    let ctx = prepare_call_context(plain_call_request(), 1_000_000).unwrap();
    assert_eq!(ctx.gas_limit, 1_000_000);
    assert_eq!(ctx.caller, 0);
    assert_eq!(ctx.kind, TxKind::Call(9));
    assert_eq!(ctx.input, vec![1, 2, 3]);
    let mut req = plain_call_request();
    req.gas = Some(60_000);
    req.from = Some(4);
    req.to = None;
    req.max_fee_per_gas = Some(33);
    req.access_list = Some(vec![AccessListItem { address: 9, storage_keys: vec![1] }]);
    let ctx = prepare_call_context(req, 1_000_000).unwrap();
    assert_eq!(ctx.gas_limit, 60_000);
    assert_eq!(ctx.caller, 4);
    assert_eq!(ctx.kind, TxKind::Create);
    assert_eq!(ctx.gas_price, 33);
    assert_eq!(ctx.access_list.len(), 1);
}

#[test]
fn the_bridge_reports_worker_pool_failures() {
    assert_eq!(complete_blocking_task(Some(42u64)), Ok(42));
    assert!(matches!(
        complete_blocking_task::<u64>(None),
        Err(EthApiError::ExecutionTaskFailed)
    ));
}

#[test]
fn typed_request_classification_covers_the_envelopes() {
    let mut req = plain_tx_request();
    req.gas_price = Some(11);
    let t = build_typed_transaction(req, 1, 7, 60_000, 11, 0).unwrap();
    assert_eq!(t.tx_type, TxType::Legacy);
    assert_eq!(t.gas_price, 11);
    assert_eq!(t.chain_id, 1);
    assert_eq!(t.nonce, 7);
    assert_eq!(t.gas_limit, 60_000);
    assert!(t.access_list.is_empty());

    let mut req = plain_tx_request();
    req.gas_price = Some(11);
    req.access_list = Some(vec![AccessListItem { address: 9, storage_keys: vec![] }]);
    let t = build_typed_transaction(req, 1, 7, 60_000, 11, 0).unwrap();
    assert_eq!(t.tx_type, TxType::Eip2930);
    assert_eq!(t.access_list.len(), 1);

    let mut req = plain_tx_request();
    req.max_fee_per_gas = Some(100);
    req.max_priority_fee_per_gas = Some(2);
    let t = build_typed_transaction(req, 1, 7, 60_000, 0, 100).unwrap();
    assert_eq!(t.tx_type, TxType::Eip1559);
    assert_eq!(t.max_fee_per_gas, 100);
    assert_eq!(t.max_priority_fee_per_gas, 2);

    let mut req = plain_tx_request();
    req.max_fee_per_blob_gas = Some(4);
    req.blob_versioned_hashes = Some(vec![0x55]);
    let t = build_typed_transaction(req, 1, 7, 60_000, 0, 100).unwrap();
    assert_eq!(t.tx_type, TxType::Eip4844);
    assert_eq!(t.max_fee_per_blob_gas, 4);
    assert_eq!(t.blob_versioned_hashes, vec![0x55]);
}

#[test]
fn a_request_without_fee_fields_is_a_dynamic_fee_transaction() {
    let t = build_typed_transaction(plain_tx_request(), 1, 7, 60_000, 0, 55).unwrap();
    assert_eq!(t.tx_type, TxType::Eip1559);
    assert_eq!(t.max_fee_per_gas, 55);
    assert_eq!(t.max_priority_fee_per_gas, 0);
    assert_eq!(t.kind, TxKind::Call(9));
}

#[test]
fn contradictory_submissions_are_conflicts() {
    let mut req = plain_tx_request();
    req.gas_price = Some(11);
    req.max_fee_per_gas = Some(100);
    assert!(matches!(
        build_typed_transaction(req, 1, 7, 60_000, 11, 100),
        Err(EthApiError::TransactionConflict)
    ));
    let mut req = plain_tx_request();
    req.gas_price = Some(11);
    req.max_fee_per_blob_gas = Some(4);
    assert!(matches!(
        build_typed_transaction(req, 1, 7, 60_000, 11, 0),
        Err(EthApiError::TransactionConflict)
    ));
}

#[test]
fn submissions_take_the_stated_nonce_or_the_pending_one() {
    assert_eq!(effective_nonce(Some(9), 4), 9);
    assert_eq!(effective_nonce(None, 4), 4);
}

#[test]
fn pool_rejections_carry_their_reason_through() {
    assert_eq!(complete_pool_submission(Ok(0xabc)), Ok(0xabc));
    match complete_pool_submission(Err(String::from("replacement underpriced"))) {
        Err(EthApiError::PoolRejected(reason)) => {
            assert_eq!(reason, "replacement underpriced");
        }
        other => panic!("expected a pool rejection, got {:?}", other),
    }
}

#[test]
fn history_takes_precedence_over_the_pool() {
    let hash = 0x77;
    assert_eq!(lookup_start(hash), TransactionLookup::NeedHistory(hash));

    // present in history: the lookup ends as a mined source, the pool is
    // never asked, whatever it may hold
    let mined = pool_tx(hash).tx;
    let meta =
        TransactionMeta { tx_hash: hash, index: 2, block_hash: 0xb1, block_number: 9, base_fee: Some(7) };
    let step = lookup_on_history(hash, Some((mined, meta)));
    match step {
        TransactionLookup::Done(Some(TransactionSource::Block {
            index,
            block_hash,
            block_number,
            base_fee,
            transaction,
        })) => {
            assert_eq!(index, 2);
            assert_eq!(block_hash, 0xb1);
            assert_eq!(block_number, 9);
            assert_eq!(base_fee, Some(7));
            assert_eq!(transaction.signer, 5);
        }
        other => panic!("a history hit must end the lookup, got {:?}", other),
    }

    // absent from history: only then is the pool consulted
    assert_eq!(lookup_on_history(hash, None), TransactionLookup::NeedPool(hash));
    let step = lookup_on_pool(Some(pool_tx(hash)));
    assert_eq!(
        step,
        TransactionLookup::Done(Some(TransactionSource::Pool(pool_tx(hash))))
    );
    assert_eq!(lookup_on_pool(None), TransactionLookup::Done(None));
}

#[test]
fn unrecoverable_mined_transactions_fail_the_lookup() {
    let mut mined = pool_tx(0x77).tx;
    mined.recovered_signer = None;
    let meta =
        TransactionMeta { tx_hash: 0x77, index: 0, block_hash: 0xb1, block_number: 9, base_fee: None };
    assert_eq!(
        lookup_on_history(0x77, Some((mined, meta))),
        TransactionLookup::Failed(EthApiError::InvalidSignature)
    );
}

#[test]
fn sources_split_into_transaction_and_position() {
    let pooled = TransactionSource::Pool(pool_tx(0x77));
    let (tx, info) = pooled.split();
    assert_eq!(tx.tx.hash, 0x77);
    assert_eq!(info.hash, Some(0x77));
    assert_eq!(info.index, None);
    assert_eq!(info.block_hash, None);
    assert!(pooled.block_reference().is_pending());
    assert_eq!(pooled.historical_block_hash(), None);
    assert_eq!(pooled.into_recovered().tx.hash, 0x77);

    let mined = TransactionSource::Block {
        transaction: pool_tx(0x77),
        index: 1,
        block_hash: 0xb1,
        block_number: 9,
        base_fee: Some(7),
    };
    let (tx, info) = mined.split();
    assert_eq!(tx.tx.hash, 0x77);
    assert_eq!(info.index, Some(1));
    assert_eq!(info.block_hash, Some(0xb1));
    assert_eq!(info.block_number, Some(9));
    assert_eq!(info.base_fee, Some(7));
    assert_eq!(mined.block_reference(), BlockReference::from_hash(0xb1));
    assert_eq!(mined.historical_block_hash(), Some(0xb1));
}

#[test]
fn the_first_matching_signer_is_chosen() {
    let managed = vec![10, 20, 10];
    assert_eq!(find_signer(&managed, 10), Ok(0));
    assert_eq!(find_signer(&managed, 20), Ok(1));
    assert!(matches!(
        find_signer(&managed, 30),
        Err(EthApiError::NoSignerForAccount)
    ));
}
