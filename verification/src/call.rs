//! Preparation of one call or transaction for execution against a resolved
//! environment and overlay, and the contract of the blocking execution
//! bridge.
//!
//! Execution itself is the external engine's job and runs on the worker
//! pool; what is verified here is what the engine is given: the derived
//! per-transaction parameters, the fee-field conflict rule, and the gas-cap
//! default.

use vstd::prelude::*;

use crate::error::EthApiError;
use crate::tx::TxKind;

verus! {

/// One entry of an access list: an address and the storage keys the
/// transaction pre-declares.
#[derive(Debug, Clone, PartialEq, Eq)]
pub struct AccessListItem {
    pub address: u64,
    pub storage_keys: Vec<u64>,
}

/// A call request as an API caller states it: everything optional, fee
/// fields possibly contradictory.
#[derive(Debug, Clone, PartialEq, Eq)]
pub struct CallRequest {
    pub from: Option<u64>,
    pub to: Option<u64>,
    pub gas: Option<u64>,
    pub gas_price: Option<u128>,
    pub max_fee_per_gas: Option<u128>,
    pub max_priority_fee_per_gas: Option<u128>,
    pub value: u128,
    pub input: Vec<u8>,
    pub nonce: Option<u64>,
    pub chain_id: Option<u64>,
    pub access_list: Option<Vec<AccessListItem>>,
    pub max_fee_per_blob_gas: Option<u128>,
    pub blob_versioned_hashes: Option<Vec<u64>>,
}

/// Derived per-transaction execution parameters, ready for the execution
/// engine.
#[derive(Debug, Clone, PartialEq, Eq)]
pub struct TransactionContext {
    pub caller: u64,
    pub gas_limit: u64,
    pub gas_price: u128,
    pub max_priority_fee_per_gas: Option<u128>,
    pub kind: TxKind,
    pub value: u128,
    pub input: Vec<u8>,
    pub nonce: Option<u64>,
    pub chain_id: Option<u64>,
    pub access_list: Vec<AccessListItem>,
    pub max_fee_per_blob_gas: Option<u128>,
    pub blob_versioned_hashes: Vec<u64>,
}

/// A request that states a legacy gas price and also a dynamic fee cap (or
/// priority-fee cap) is contradictory.
pub open spec fn spec_has_fee_conflict(request: CallRequest) -> bool {
    request.gas_price is Some && (request.max_fee_per_gas is Some
        || request.max_priority_fee_per_gas is Some)
}

/// Derives the per-transaction execution parameters for a call request.
/// Fails exactly on contradictory fee fields. A request without a gas limit
/// gets the node's configured call-gas cap; a request without a sender calls
/// from the zero account; a request without a destination is a creation.
pub fn prepare_call_context(request: CallRequest, gas_cap: u64) -> (r: Result<
    TransactionContext,
    EthApiError,
>)
    ensures
        spec_has_fee_conflict(request) ==> r == Err::<TransactionContext, EthApiError>(
            EthApiError::TransactionConflict,
        ),
        !spec_has_fee_conflict(request) ==> (r matches Ok(ctx) && {
            &&& ctx.caller == (match request.from {
                Some(f) => f,
                None => 0u64,
            })
            &&& ctx.gas_limit == (match request.gas {
                Some(g) => g,
                None => gas_cap,
            })
            &&& ctx.gas_price == (match request.gas_price {
                Some(p) => p,
                None => (match request.max_fee_per_gas {
                    Some(m) => m,
                    None => 0u128,
                }),
            })
            &&& ctx.max_priority_fee_per_gas == request.max_priority_fee_per_gas
            &&& ctx.kind == (match request.to {
                Some(t) => TxKind::Call(t),
                None => TxKind::Create,
            })
            &&& ctx.value == request.value
            &&& ctx.input == request.input
            &&& ctx.nonce == request.nonce
            &&& ctx.chain_id == request.chain_id
            &&& ctx.access_list@ == (match request.access_list {
                Some(al) => al@,
                None => Seq::<AccessListItem>::empty(),
            })
            &&& ctx.max_fee_per_blob_gas == request.max_fee_per_blob_gas
            &&& ctx.blob_versioned_hashes@ == (match request.blob_versioned_hashes {
                Some(b) => b@,
                None => Seq::<u64>::empty(),
            })
        }),
{
    let conflict = match (
        &request.gas_price,
        &request.max_fee_per_gas,
        &request.max_priority_fee_per_gas,
    ) {
        (Some(_), Some(_), _) => true,
        (Some(_), _, Some(_)) => true,
        _ => false,
    };
    if conflict {
        return Err(EthApiError::TransactionConflict);
    }
    let gas_price = match request.gas_price {
        Some(p) => p,
        None => match request.max_fee_per_gas {
            Some(m) => m,
            None => 0,
        },
    };
    Ok(
        TransactionContext {
            caller: match request.from {
                Some(f) => f,
                None => 0,
            },
            gas_limit: match request.gas {
                Some(g) => g,
                None => gas_cap,
            },
            gas_price,
            max_priority_fee_per_gas: request.max_priority_fee_per_gas,
            kind: match request.to {
                Some(t) => TxKind::Call(t),
                None => TxKind::Create,
            },
            value: request.value,
            input: request.input,
            nonce: request.nonce,
            chain_id: request.chain_id,
            access_list: match request.access_list {
                Some(al) => al,
                None => Vec::new(),
            },
            max_fee_per_blob_gas: request.max_fee_per_blob_gas,
            blob_versioned_hashes: match request.blob_versioned_hashes {
                Some(b) => b,
                None => Vec::new(),
            },
        },
    )
}

/// The blocking execution bridge's completion contract: the worker pool
/// either delivers the task's result, or its rejection (or the task's abort)
/// surfaces as a task failure — never as silence.
pub fn complete_blocking_task<T>(outcome: Option<T>) -> (r: Result<T, EthApiError>)
    ensures
        match outcome {
            Some(v) => r == Ok::<T, EthApiError>(v),
            None => r == Err::<T, EthApiError>(EthApiError::ExecutionTaskFailed),
        },
{
    match outcome {
        Some(v) => Ok(v),
        None => Err(EthApiError::ExecutionTaskFailed),
    }
}

} // verus!
