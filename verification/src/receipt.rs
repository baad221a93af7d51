//! The receipt builder: derives a wire-level receipt for one mined
//! transaction from the transaction itself, its positional metadata, its own
//! raw execution receipt, and the ordered raw receipts of its whole block.
//!
//! The derivation only ever reads sibling receipts at earlier positions: gas
//! used is the difference of adjacent cumulative-gas values, and a log's
//! index continues the running count of all logs in earlier receipts.

use vstd::prelude::*;

use crate::error::EthApiError;
use crate::tx::{SignedTransaction, TxKind};

verus! {

/// One log entry of a raw execution receipt.
#[derive(Debug, Clone, PartialEq, Eq)]
pub struct Log {
    pub address: u64,
    pub topics: Vec<u64>,
    pub data: Vec<u8>,
}

/// A raw execution receipt, as execution or storage hands it out.
#[derive(Debug, Clone, PartialEq, Eq)]
pub struct Receipt {
    pub success: bool,
    pub cumulative_gas_used: u64,
    pub logs: Vec<Log>,
}

/// Positional metadata of a mined transaction.
#[derive(Debug, Clone, Copy, PartialEq, Eq)]
pub struct TransactionMeta {
    pub tx_hash: u64,
    pub index: u64,
    pub block_hash: u64,
    pub block_number: u64,
    pub base_fee: Option<u64>,
}

/// One log entry of a wire receipt, carrying its block-wide index.
#[derive(Debug, Clone, PartialEq, Eq)]
pub struct RpcLog {
    pub address: u64,
    pub topics: Vec<u64>,
    pub data: Vec<u8>,
    pub block_hash: Option<u64>,
    pub block_number: Option<u64>,
    pub transaction_hash: Option<u64>,
    pub transaction_index: Option<u64>,
    pub log_index: Option<u64>,
    pub removed: bool,
}

/// The wire receipt handed to callers. Addresses of the model are compact
/// identifiers; only the derived contract address is carried in its 20-byte
/// wire form, because it is computed by the external address-derivation
/// primitive.
#[derive(Debug, Clone, PartialEq, Eq)]
pub struct TransactionReceipt {
    pub transaction_hash: Option<u64>,
    pub transaction_index: u64,
    pub block_hash: Option<u64>,
    pub block_number: Option<u64>,
    pub from: u64,
    pub to: Option<u64>,
    pub cumulative_gas_used: u64,
    pub gas_used: Option<u64>,
    /// The 20-byte address of the created contract, for creations only.
    pub contract_address: Option<Vec<u8>>,
    pub logs: Vec<RpcLog>,
    pub effective_gas_price: u128,
    pub transaction_type: u8,
    pub status_code: Option<u64>,
    pub blob_gas_used: Option<u64>,
    /// L1 fee fields for rollup variants, filled by the receipt
    /// augmentation and absent otherwise.
    pub l1_fee: Option<u128>,
    pub l1_gas_used: Option<u128>,
    pub l1_fee_scalar: Option<u128>,
    pub l1_gas_price: Option<u128>,
}

/// The contract address a creation by `sender` with `nonce` deploys to, as
/// the external address-derivation primitive computes it.
pub uninterp spec fn created_address(sender: u64, nonce: u64) -> Seq<u8>;

/// Relies on alloy_primitives::Address::create: the created contract address
/// is keccak256(rlp([sender, nonce]))[12..], 20 bytes, a function of the
/// sender and nonce alone. The model's compact sender identifier is widened
/// to its 20-byte big-endian form before the call.
#[verifier::external_body]
fn create_contract_address(sender: u64, nonce: u64) -> (r: Vec<u8>)
    ensures
        r@ == created_address(sender, nonce),
        r@.len() == 20,
{
    let mut bytes = [0u8; 20];
    bytes[12..20].copy_from_slice(&sender.to_be_bytes());
    alloy_primitives::Address::new(bytes).create(nonce).to_vec()
}

/// Gas attributed to the transaction at `index` with cumulative gas
/// `cumulative`: at position 0 its own cumulative gas, otherwise the
/// difference to the predecessor's cumulative gas — or zero when the
/// predecessor receipt is missing from the block's list.
pub open spec fn spec_gas_used(index: u64, cumulative: u64, all: Seq<Receipt>) -> u64 {
    if index == 0 {
        cumulative
    } else if index - 1 < all.len() {
        (cumulative - all[index as int - 1].cumulative_gas_used) as u64
    } else {
        0u64
    }
}

/// The number of logs in the first `n` receipts of the block (positions past
/// the end of the list contribute nothing).
pub open spec fn logs_before(all: Seq<Receipt>, n: int) -> nat
    decreases n,
{
    if n <= 0 {
        0
    } else {
        logs_before(all, n - 1) + if n - 1 < all.len() {
            all[n - 1].logs@.len()
        } else {
            0
        }
    }
}

/// The block-wide index assigned to log `j` of the receipt at position `i`.
pub open spec fn spec_log_index(all: Seq<Receipt>, i: int, j: int) -> int {
    logs_before(all, i) + j
}

/// One more receipt contributes exactly its own log count.
pub proof fn lemma_logs_before_step(all: Seq<Receipt>, n: int)
    requires
        0 <= n < all.len(),
    ensures
        logs_before(all, n + 1) == logs_before(all, n) + all[n].logs@.len(),
{
}

/// The running log count never decreases with position.
pub proof fn lemma_logs_before_monotonic(all: Seq<Receipt>, a: int, b: int)
    requires
        0 <= a <= b,
    ensures
        logs_before(all, a) <= logs_before(all, b),
    decreases b - a,
{
    if a < b {
        lemma_logs_before_monotonic(all, a, b - 1);
    }
}

/// Receipts without logs do not advance the running log count.
proof fn lemma_logs_before_empties(all: Seq<Receipt>, a: int, b: int)
    requires
        0 <= a <= b,
        forall|k: int| a <= k < b && k < all.len() ==> all[k].logs@.len() == 0,
    ensures
        logs_before(all, b) == logs_before(all, a),
    decreases b - a,
{
    if a < b {
        lemma_logs_before_empties(all, a, b - 1);
    }
}

/// Positions past the end of the list do not advance the running log count.
proof fn lemma_logs_before_stable(all: Seq<Receipt>, n: int)
    requires
        n >= all.len(),
    ensures
        logs_before(all, n) == logs_before(all, all.len() as int),
{
    lemma_logs_before_empties(all, all.len() as int, n);
}

/// Log index monotonicity: the very first log of a block takes index 0;
/// within one receipt consecutive logs take consecutive indices; and the
/// first log of the next receipt that has any logs takes the index right
/// after the last log of receipt `i` — the assigned indices are strictly
/// increasing and contiguous from 0 across the whole block.
pub proof fn lemma_log_index_monotonicity(all: Seq<Receipt>, i: int, j: int, i2: int)
    requires
        0 <= i < i2 <= all.len(),
        all[i].logs@.len() > 0,
        forall|k: int| i < k < i2 ==> all[k].logs@.len() == 0,
    ensures
        spec_log_index(all, 0, 0) == 0,
        spec_log_index(all, i, j + 1) == spec_log_index(all, i, j) + 1,
        spec_log_index(all, i2, 0) == spec_log_index(all, i, all[i].logs@.len() - 1) + 1,
{
    lemma_logs_before_step(all, i);
    lemma_logs_before_empties(all, i + 1, i2);
}

/// Cumulative gas law: the gas attributed at position 0 is the receipt's own
/// cumulative gas, and at any later position with a known predecessor the
/// attributed gas plus the predecessor's cumulative gas is exactly this
/// receipt's cumulative gas.
pub proof fn lemma_cumulative_gas(index: u64, cumulative: u64, all: Seq<Receipt>)
    requires
        index > 0 ==> index - 1 < all.len() && all[index as int - 1].cumulative_gas_used
            <= cumulative,
    ensures
        index == 0 ==> spec_gas_used(index, cumulative, all) == cumulative,
        index > 0 ==> spec_gas_used(index, cumulative, all) + all[index as int
            - 1].cumulative_gas_used == cumulative,
{
}

/// How a wire log must reproduce a raw log at block-wide index `idx`.
pub open spec fn rpc_log_matches(r: RpcLog, log: Log, meta: TransactionMeta, idx: u64) -> bool {
    &&& r.address == log.address
    &&& r.topics@ == log.topics@
    &&& r.data@ == log.data@
    &&& r.block_hash == Some(meta.block_hash)
    &&& r.block_number == Some(meta.block_number)
    &&& r.transaction_hash == Some(meta.tx_hash)
    &&& r.transaction_index == Some(meta.index)
    &&& r.log_index == Some(idx)
    &&& r.removed == false
}

/// Everything the derived receipt must say, given the transaction, its
/// metadata, its raw receipt and the block's ordered raw receipts.
pub open spec fn receipt_matches(
    rec: TransactionReceipt,
    transaction: SignedTransaction,
    meta: TransactionMeta,
    receipt: Receipt,
    all: Seq<Receipt>,
) -> bool {
    &&& Some(rec.from) == transaction.recovered_signer
    &&& rec.transaction_hash == Some(meta.tx_hash)
    &&& rec.transaction_index == meta.index
    &&& rec.block_hash == Some(meta.block_hash)
    &&& rec.block_number == Some(meta.block_number)
    &&& rec.cumulative_gas_used == receipt.cumulative_gas_used
    &&& rec.gas_used == Some(spec_gas_used(meta.index, receipt.cumulative_gas_used, all))
    &&& rec.effective_gas_price == transaction.spec_effective_gas_price(meta.base_fee)
    &&& rec.transaction_type == transaction.tx_type.spec_id()
    &&& rec.status_code == Some(
        if receipt.success {
            1u64
        } else {
            0u64
        },
    )
    &&& rec.blob_gas_used == transaction.blob_gas_used
    &&& rec.l1_fee is None
    &&& rec.l1_gas_used is None
    &&& rec.l1_fee_scalar is None
    &&& rec.l1_gas_price is None
    &&& (match transaction.kind {
        TxKind::Create => rec.to is None && (rec.contract_address matches Some(a) && a@
            == created_address(transaction.recovered_signer->0, transaction.nonce)),
        TxKind::Call(addr) => rec.to == Some(addr) && rec.contract_address is None,
    })
    &&& rec.logs@.len() == receipt.logs@.len()
    &&& forall|j: int|
        0 <= j < receipt.logs@.len() ==> rpc_log_matches(
            rec.logs@[j],
            receipt.logs@[j],
            meta,
            (logs_before(all, meta.index as int) + j) as u64,
        )
}

fn copy_u64s(v: &Vec<u64>) -> (r: Vec<u64>)
    ensures
        r@ == v@,
{
    let mut r: Vec<u64> = Vec::new();
    let mut i: usize = 0;
    while i < v.len()
        invariant
            i <= v@.len(),
            r@ == v@.take(i as int),
        decreases v@.len() - i,
    {
        r.push(v[i]);
        proof {
            assert(r@ =~= v@.take(i as int + 1));
        }
        i = i + 1;
    }
    proof {
        assert(v@.take(v@.len() as int) =~= v@);
    }
    r
}

fn copy_bytes(v: &Vec<u8>) -> (r: Vec<u8>)
    ensures
        r@ == v@,
{
    let mut r: Vec<u8> = Vec::new();
    let mut i: usize = 0;
    while i < v.len()
        invariant
            i <= v@.len(),
            r@ == v@.take(i as int),
        decreases v@.len() - i,
    {
        r.push(v[i]);
        proof {
            assert(r@ =~= v@.take(i as int + 1));
        }
        i = i + 1;
    }
    proof {
        assert(v@.take(v@.len() as int) =~= v@);
    }
    r
}

/// Constructs the wire receipt for one mined transaction from its raw
/// receipt and the ordered raw receipts of its whole block. Fails exactly
/// when the transaction's sender cannot be recovered. Gas used is the
/// difference of adjacent cumulative-gas values; a log's block-wide index
/// continues the running count of the logs of all earlier receipts; the
/// contract address is derived from sender and nonce for creations only.
pub fn build_transaction_receipt_with_block_receipts(
    transaction: &SignedTransaction,
    meta: &TransactionMeta,
    receipt: &Receipt,
    all_receipts: &Vec<Receipt>,
) -> (r: Result<TransactionReceipt, EthApiError>)
    requires
        meta.index <= usize::MAX,
        meta.index > 0 && meta.index - 1 < all_receipts@.len()
            ==> all_receipts@[meta.index as int - 1].cumulative_gas_used
            <= receipt.cumulative_gas_used,
        logs_before(all_receipts@, meta.index as int) + receipt.logs@.len() <= u64::MAX,
    ensures
        match r {
            Ok(rec) => transaction.recovered_signer is Some && receipt_matches(
                rec,
                *transaction,
                *meta,
                *receipt,
                all_receipts@,
            ),
            Err(e) => transaction.recovered_signer is None && e == EthApiError::InvalidSignature,
        },
{
    let from = match transaction.recovered_signer {
        Some(signer) => signer,
        None => {
            return Err(EthApiError::InvalidSignature);
        },
    };

    let gas_used: u64 = if meta.index == 0 {
        receipt.cumulative_gas_used
    } else {
        let prev_idx = (meta.index - 1) as usize;
        if prev_idx < all_receipts.len() {
            receipt.cumulative_gas_used - all_receipts[prev_idx].cumulative_gas_used
        } else {
            0
        }
    };

    let (to, contract_address): (Option<u64>, Option<Vec<u8>>) = match transaction.kind {
        TxKind::Create => (None, Some(create_contract_address(from, transaction.nonce))),
        TxKind::Call(addr) => (Some(addr), None),
    };

    // running count of the logs of all receipts before this position
    let idx = meta.index as usize;
    let bound = if idx < all_receipts.len() {
        idx
    } else {
        all_receipts.len()
    };
    let mut num_logs: u64 = 0;
    let mut i: usize = 0;
    while i < bound
        invariant
            i <= bound,
            bound <= all_receipts@.len(),
            bound <= idx,
            idx == meta.index,
            bound == if idx < all_receipts@.len() {
                idx as int
            } else {
                all_receipts@.len() as int
            },
            num_logs == logs_before(all_receipts@, i as int),
            logs_before(all_receipts@, meta.index as int) + receipt.logs@.len() <= u64::MAX,
        decreases bound - i,
    {
        proof {
            lemma_logs_before_step(all_receipts@, i as int);
            lemma_logs_before_monotonic(all_receipts@, i as int + 1, meta.index as int);
        }
        num_logs = num_logs + all_receipts[i].logs.len() as u64;
        i = i + 1;
    }
    proof {
        if idx >= all_receipts@.len() {
            lemma_logs_before_stable(all_receipts@, meta.index as int);
        }
        assert(num_logs == logs_before(all_receipts@, meta.index as int));
    }

    let nl = receipt.logs.len();
    let mut logs: Vec<RpcLog> = Vec::new();
    let mut j: usize = 0;
    while j < nl
        invariant
            j <= nl,
            nl == receipt.logs@.len(),
            num_logs == logs_before(all_receipts@, meta.index as int),
            logs_before(all_receipts@, meta.index as int) + receipt.logs@.len() <= u64::MAX,
            logs@.len() == j,
            forall|t: int|
                0 <= t < j ==> rpc_log_matches(
                    logs@[t],
                    receipt.logs@[t],
                    *meta,
                    (logs_before(all_receipts@, meta.index as int) + t) as u64,
                ),
        decreases nl - j,
    {
        let log = &receipt.logs[j];
        logs.push(
            RpcLog {
                address: log.address,
                topics: copy_u64s(&log.topics),
                data: copy_bytes(&log.data),
                block_hash: Some(meta.block_hash),
                block_number: Some(meta.block_number),
                transaction_hash: Some(meta.tx_hash),
                transaction_index: Some(meta.index),
                log_index: Some(num_logs + j as u64),
                removed: false,
            },
        );
        j = j + 1;
    }

    Ok(
        TransactionReceipt {
            transaction_hash: Some(meta.tx_hash),
            transaction_index: meta.index,
            block_hash: Some(meta.block_hash),
            block_number: Some(meta.block_number),
            from,
            to,
            cumulative_gas_used: receipt.cumulative_gas_used,
            gas_used: Some(gas_used),
            contract_address,
            logs,
            effective_gas_price: transaction.effective_gas_price(meta.base_fee),
            transaction_type: transaction.tx_type.id(),
            status_code: Some(
                if receipt.success {
                    1
                } else {
                    0
                },
            ),
            blob_gas_used: transaction.blob_gas_used,
            l1_fee: None,
            l1_gas_used: None,
            l1_fee_scalar: None,
            l1_gas_price: None,
        },
    )
}

} // verus!
