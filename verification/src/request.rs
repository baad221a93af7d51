//! Building a fully-specified typed transaction from a submitted request:
//! the envelope type is decided by which fee and access-list fields the
//! request states, the node's own values (chain id, pending-account nonce,
//! estimated gas, fee quotes) fill the gaps, and contradictory fee fields
//! are rejected.

use vstd::prelude::*;

use crate::call::AccessListItem;
use crate::error::EthApiError;
use crate::tx::{TxKind, TxType};

verus! {

/// A transaction submission as an API caller states it.
#[derive(Debug, Clone, PartialEq, Eq)]
pub struct TransactionRequest {
    pub from: Option<u64>,
    pub to: Option<u64>,
    pub gas_price: Option<u128>,
    pub max_fee_per_gas: Option<u128>,
    pub max_priority_fee_per_gas: Option<u128>,
    pub gas: Option<u64>,
    pub value: u128,
    pub input: Vec<u8>,
    pub nonce: Option<u64>,
    pub access_list: Option<Vec<AccessListItem>>,
    pub max_fee_per_blob_gas: Option<u128>,
    pub blob_versioned_hashes: Option<Vec<u64>>,
}

/// A fully-specified transaction of a decided envelope type, ready to sign.
/// Fields that the decided envelope has no place for are zero or empty.
#[derive(Debug, Clone, PartialEq, Eq)]
pub struct TypedTransactionRequest {
    pub tx_type: TxType,
    pub chain_id: u64,
    pub nonce: u64,
    pub gas_limit: u64,
    /// The gas price, for the legacy and access-list envelopes.
    pub gas_price: u128,
    /// The fee caps, for the dynamic-fee envelopes.
    pub max_fee_per_gas: u128,
    pub max_priority_fee_per_gas: u128,
    pub kind: TxKind,
    pub value: u128,
    pub input: Vec<u8>,
    pub access_list: Vec<AccessListItem>,
    pub max_fee_per_blob_gas: u128,
    pub blob_versioned_hashes: Vec<u64>,
}

/// Whether the request states any blob field.
pub open spec fn spec_has_blob_fields(r: TransactionRequest) -> bool {
    r.max_fee_per_blob_gas is Some || r.blob_versioned_hashes is Some
}

/// The envelope type a request's fields call for, or nothing when the
/// fields are contradictory: a legacy gas price beside a dynamic fee cap, or
/// beside blob fields, names no single envelope.
pub open spec fn spec_typed_kind(r: TransactionRequest) -> Option<TxType> {
    if spec_has_blob_fields(r) {
        if r.gas_price is None {
            Some(TxType::Eip4844)
        } else {
            None
        }
    } else if r.gas_price is Some && r.max_fee_per_gas is None && r.access_list is None {
        Some(TxType::Legacy)
    } else if r.max_fee_per_gas is None && r.access_list is Some {
        Some(TxType::Eip2930)
    } else if r.gas_price is None {
        Some(TxType::Eip1559)
    } else {
        None
    }
}

/// The outcome of handing a transaction to the pool: the pool's admission
/// failures are surfaced unchanged, with their own reason, while an admitted
/// transaction yields its hash.
pub fn complete_pool_submission(outcome: Result<u64, String>) -> (r: Result<u64, EthApiError>)
    ensures
        match outcome {
            Ok(hash) => r == Ok::<u64, EthApiError>(hash),
            Err(reason) => r == Err::<u64, EthApiError>(EthApiError::PoolRejected(reason)),
        },
{
    match outcome {
        Ok(hash) => Ok(hash),
        Err(reason) => Err(EthApiError::PoolRejected(reason)),
    }
}

/// The nonce a submission uses: the request's own, or the sender's next
/// nonce as the pending state reports it.
pub fn effective_nonce(request_nonce: Option<u64>, pending_account_nonce: u64) -> (r: u64)
    ensures
        r == (match request_nonce {
            Some(n) => n,
            None => pending_account_nonce,
        }),
{
    match request_nonce {
        Some(n) => n,
        None => pending_account_nonce,
    }
}

/// Decides the envelope type of a request and fills it into a
/// fully-specified transaction: the node's chain id, the resolved nonce, the
/// estimated gas limit, and the quoted gas price or fee cap for the decided
/// envelope. Fails exactly when the request's fields are contradictory.
pub fn build_typed_transaction(
    request: TransactionRequest,
    chain_id: u64,
    nonce: u64,
    gas_limit: u64,
    gas_price: u128,
    max_fee_per_gas: u128,
) -> (r: Result<TypedTransactionRequest, EthApiError>)
    ensures
        match r {
            Err(e) => spec_typed_kind(request) is None && e == EthApiError::TransactionConflict,
            Ok(t) => spec_typed_kind(request) == Some(t.tx_type) && {
                &&& t.chain_id == chain_id
                &&& t.nonce == nonce
                &&& t.gas_limit == gas_limit
                &&& t.gas_price == (if t.tx_type is Legacy || t.tx_type is Eip2930 {
                    gas_price
                } else {
                    0u128
                })
                &&& t.max_fee_per_gas == (if t.tx_type is Eip1559 || t.tx_type is Eip4844 {
                    max_fee_per_gas
                } else {
                    0u128
                })
                &&& t.max_priority_fee_per_gas == (if t.tx_type is Eip1559 || t.tx_type is Eip4844 {
                    (match request.max_priority_fee_per_gas {
                        Some(p) => p,
                        None => 0u128,
                    })
                } else {
                    0u128
                })
                &&& t.kind == (match request.to {
                    Some(to) => TxKind::Call(to),
                    None => TxKind::Create,
                })
                &&& t.value == request.value
                &&& t.input == request.input
                &&& t.access_list@ == (if t.tx_type is Legacy {
                    Seq::<AccessListItem>::empty()
                } else {
                    (match request.access_list {
                        Some(al) => al@,
                        None => Seq::<AccessListItem>::empty(),
                    })
                })
                &&& t.max_fee_per_blob_gas == (if t.tx_type is Eip4844 {
                    (match request.max_fee_per_blob_gas {
                        Some(f) => f,
                        None => 0u128,
                    })
                } else {
                    0u128
                })
                &&& t.blob_versioned_hashes@ == (if t.tx_type is Eip4844 {
                    (match request.blob_versioned_hashes {
                        Some(b) => b@,
                        None => Seq::<u64>::empty(),
                    })
                } else {
                    Seq::<u64>::empty()
                })
            },
        },
{
    let has_blob = request.max_fee_per_blob_gas.is_some() || request.blob_versioned_hashes.is_some();
    let kind = match request.to {
        Some(to) => TxKind::Call(to),
        None => TxKind::Create,
    };
    if has_blob {
        if request.gas_price.is_some() {
            return Err(EthApiError::TransactionConflict);
        }
        return Ok(
            TypedTransactionRequest {
                tx_type: TxType::Eip4844,
                chain_id,
                nonce,
                gas_limit,
                gas_price: 0,
                max_fee_per_gas,
                max_priority_fee_per_gas: match request.max_priority_fee_per_gas {
                    Some(p) => p,
                    None => 0,
                },
                kind,
                value: request.value,
                input: request.input,
                access_list: match request.access_list {
                    Some(al) => al,
                    None => Vec::new(),
                },
                max_fee_per_blob_gas: match request.max_fee_per_blob_gas {
                    Some(f) => f,
                    None => 0,
                },
                blob_versioned_hashes: match request.blob_versioned_hashes {
                    Some(b) => b,
                    None => Vec::new(),
                },
            },
        );
    }
    if request.gas_price.is_some() && request.max_fee_per_gas.is_none()
        && request.access_list.is_none() {
        return Ok(
            TypedTransactionRequest {
                tx_type: TxType::Legacy,
                chain_id,
                nonce,
                gas_limit,
                gas_price,
                max_fee_per_gas: 0,
                max_priority_fee_per_gas: 0,
                kind,
                value: request.value,
                input: request.input,
                access_list: Vec::new(),
                max_fee_per_blob_gas: 0,
                blob_versioned_hashes: Vec::new(),
            },
        );
    }
    if request.max_fee_per_gas.is_none() && request.access_list.is_some() {
        return Ok(
            TypedTransactionRequest {
                tx_type: TxType::Eip2930,
                chain_id,
                nonce,
                gas_limit,
                gas_price,
                max_fee_per_gas: 0,
                max_priority_fee_per_gas: 0,
                kind,
                value: request.value,
                input: request.input,
                access_list: match request.access_list {
                    Some(al) => al,
                    None => Vec::new(),
                },
                max_fee_per_blob_gas: 0,
                blob_versioned_hashes: Vec::new(),
            },
        );
    }
    if request.gas_price.is_none() {
        return Ok(
            TypedTransactionRequest {
                tx_type: TxType::Eip1559,
                chain_id,
                nonce,
                gas_limit,
                gas_price: 0,
                max_fee_per_gas,
                max_priority_fee_per_gas: match request.max_priority_fee_per_gas {
                    Some(p) => p,
                    None => 0,
                },
                kind,
                value: request.value,
                input: request.input,
                access_list: match request.access_list {
                    Some(al) => al,
                    None => Vec::new(),
                },
                max_fee_per_blob_gas: 0,
                blob_versioned_hashes: Vec::new(),
            },
        );
    }
    Err(EthApiError::TransactionConflict)
}

} // verus!
