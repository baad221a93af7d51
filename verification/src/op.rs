//! Chain-specific receipt augmentation for rollup variants: L1 fee metadata
//! attached to receipts of blocks that carry L1 cost data.
//!
//! Computing the L1 cost of a transaction (a function of its encoded
//! envelope and the chain's fee rules) is the execution collaborator's job;
//! what is decided and assembled here is when that cost applies and how it
//! lands in the receipt.

use vstd::prelude::*;

use crate::receipt::TransactionReceipt;

verus! {

/// L1 fee data a rollup block carries for its transactions.
#[derive(Debug, Clone, Copy, PartialEq, Eq)]
pub struct L1BlockInfo {
    pub l1_base_fee: u128,
    pub l1_fee_overhead: u128,
    pub l1_fee_scalar: u128,
}

/// The L1 cost the collaborator computed for one transaction.
#[derive(Debug, Clone, Copy, PartialEq, Eq)]
pub struct L1Cost {
    pub l1_fee: u128,
    pub l1_data_gas: u128,
}

/// L1 fee metadata for one transaction of a rollup block: empty when the
/// block carries no L1 fee data.
#[derive(Debug, Clone, Copy, PartialEq, Eq)]
pub struct OptimismTxMeta {
    pub l1_block_info: Option<L1BlockInfo>,
    pub l1_fee: Option<u128>,
    pub l1_data_gas: Option<u128>,
}

/// Whether a transaction's L1 cost must be computed at all: only when the
/// block carries L1 fee data, and never for a deposit transaction.
pub fn needs_l1_cost(has_l1_block_info: bool, is_deposit: bool) -> (r: bool)
    ensures
        r == (has_l1_block_info && !is_deposit),
{
    has_l1_block_info && !is_deposit
}

/// Assembles the L1 fee metadata for one transaction: without the block's L1
/// fee data the metadata is empty, and without a computed cost (a deposit
/// pays no L1 fee) the data is kept but no fee is attached.
pub fn build_op_tx_meta(l1_block_info: Option<L1BlockInfo>, l1_cost: Option<L1Cost>) -> (r:
    OptimismTxMeta)
    ensures
        match l1_block_info {
            None => r == (OptimismTxMeta { l1_block_info: None, l1_fee: None, l1_data_gas: None }),
            Some(info) => r.l1_block_info == Some(info) && (match l1_cost {
                Some(cost) => r.l1_fee == Some(cost.l1_fee) && r.l1_data_gas == Some(
                    cost.l1_data_gas,
                ),
                None => r.l1_fee is None && r.l1_data_gas is None,
            }),
        },
{
    match l1_block_info {
        None => OptimismTxMeta { l1_block_info: None, l1_fee: None, l1_data_gas: None },
        Some(info) => match l1_cost {
            Some(cost) => OptimismTxMeta {
                l1_block_info: Some(info),
                l1_fee: Some(cost.l1_fee),
                l1_data_gas: Some(cost.l1_data_gas),
            },
            None => OptimismTxMeta { l1_block_info: Some(info), l1_fee: None, l1_data_gas: None },
        },
    }
}

/// Applies the L1 fee metadata to a built receipt: a deposit transaction, or
/// a block without L1 fee data, leaves the receipt untouched; otherwise the
/// L1 fee fields are filled in — the gas is the data gas plus the block's
/// overhead, and the scalar is reported in its millionths form.
pub fn augment_op_receipt(rec: &mut TransactionReceipt, meta: &OptimismTxMeta, is_deposit: bool)
    requires
        match (meta.l1_block_info, meta.l1_data_gas) {
            (Some(info), Some(dg)) => dg + info.l1_fee_overhead <= u128::MAX,
            _ => true,
        },
    ensures
        (meta.l1_block_info is None || is_deposit) ==> *final(rec) == *old(rec),
        (match meta.l1_block_info {
            Some(info) => !is_deposit ==> *final(rec) == (TransactionReceipt {
                l1_fee: meta.l1_fee,
                l1_gas_used: (match meta.l1_data_gas {
                    Some(dg) => Some((dg + info.l1_fee_overhead) as u128),
                    None => None,
                }),
                l1_fee_scalar: Some(info.l1_fee_scalar / 1000000),
                l1_gas_price: Some(info.l1_base_fee),
                ..(*old(rec))
            }),
            None => true,
        }),
{
    match meta.l1_block_info {
        Some(info) => {
            if !is_deposit {
                rec.l1_fee = meta.l1_fee;
                rec.l1_gas_used = match meta.l1_data_gas {
                    Some(dg) => Some(dg + info.l1_fee_overhead),
                    None => None,
                };
                rec.l1_fee_scalar = Some(info.l1_fee_scalar / 1000000);
                rec.l1_gas_price = Some(info.l1_base_fee);
            }
        },
        None => {},
    }
}

} // verus!
