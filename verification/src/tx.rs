//! The transaction model: what the core's logic reads of a transaction.
//!
//! Payloads the logic only passes through (calldata, blob payloads, the
//! signature itself) stay with the host; signature recovery is a
//! cryptographic primitive owned by a collaborator, so a transaction carries
//! the recovery's outcome, and `None` there models a transaction whose
//! sender cannot be recovered.

use vstd::prelude::*;

verus! {

/// Where a transaction is directed: contract creation, or a call to an
/// account.
#[derive(Debug, Clone, Copy, PartialEq, Eq, Structural)]
pub enum TxKind {
    Create,
    Call(u64),
}

/// The transaction envelope type.
#[derive(Debug, Clone, Copy, PartialEq, Eq, Structural)]
pub enum TxType {
    Legacy,
    Eip2930,
    Eip1559,
    Eip4844,
}

impl TxType {
    /// The envelope type's wire identifier.
    pub open spec fn spec_id(self) -> u8 {
        match self {
            TxType::Legacy => 0,
            TxType::Eip2930 => 1,
            TxType::Eip1559 => 2,
            TxType::Eip4844 => 3,
        }
    }

    /// The envelope type's wire identifier.
    pub fn id(&self) -> (r: u8)
        ensures
            r == self.spec_id(),
    {
        match self {
            TxType::Legacy => 0,
            TxType::Eip2930 => 1,
            TxType::Eip1559 => 2,
            TxType::Eip4844 => 3,
        }
    }
}

/// A signed transaction as storage or the pool hands it out. For legacy and
/// access-list transactions, `max_fee_per_gas` holds the gas price and the
/// priority-fee cap is absent; for dynamic-fee transactions both fee caps
/// are set.
#[derive(Debug, Clone, Copy, PartialEq, Eq)]
pub struct SignedTransaction {
    pub hash: u64,
    /// The outcome of the external signature-recovery primitive: the sender,
    /// or `None` for a transaction whose sender cannot be recovered.
    pub recovered_signer: Option<u64>,
    pub nonce: u64,
    pub gas_limit: u64,
    pub max_fee_per_gas: u128,
    pub max_priority_fee_per_gas: Option<u128>,
    pub kind: TxKind,
    pub value: u128,
    pub tx_type: TxType,
    /// Blob gas this transaction consumes; absent unless it carries blobs.
    pub blob_gas_used: Option<u64>,
}

/// A transaction together with its recovered sender.
#[derive(Debug, Clone, Copy, PartialEq, Eq)]
pub struct RecoveredTransaction {
    pub signer: u64,
    pub tx: SignedTransaction,
}

impl SignedTransaction {
    /// The price per gas unit this transaction pays in a block with the
    /// given base fee: the gas price itself for legacy transactions, and for
    /// dynamic-fee transactions the fee cap, lowered to base fee plus the
    /// priority-fee cap when the cap leaves a larger tip than the
    /// transaction allows.
    pub open spec fn spec_effective_gas_price(self, base_fee: Option<u64>) -> u128 {
        match base_fee {
            None => self.max_fee_per_gas,
            Some(b) => match self.max_priority_fee_per_gas {
                None => self.max_fee_per_gas,
                Some(tip_cap) => {
                    let tip = if self.max_fee_per_gas >= b as u128 {
                        (self.max_fee_per_gas - b as u128) as u128
                    } else {
                        0u128
                    };
                    if tip > tip_cap {
                        (tip_cap + b as u128) as u128
                    } else {
                        self.max_fee_per_gas
                    }
                },
            },
        }
    }

    /// See [`Self::spec_effective_gas_price`].
    pub fn effective_gas_price(&self, base_fee: Option<u64>) -> (r: u128)
        ensures
            r == self.spec_effective_gas_price(base_fee),
    {
        match base_fee {
            None => self.max_fee_per_gas,
            Some(b) => match self.max_priority_fee_per_gas {
                None => self.max_fee_per_gas,
                Some(tip_cap) => {
                    let base = b as u128;
                    let tip = if self.max_fee_per_gas >= base {
                        self.max_fee_per_gas - base
                    } else {
                        0
                    };
                    if tip > tip_cap {
                        tip_cap + base
                    } else {
                        self.max_fee_per_gas
                    }
                },
            },
        }
    }

    /// Pairs the transaction with its recovered sender, or reports that
    /// recovery failed.
    pub fn recover(self) -> (r: Option<RecoveredTransaction>)
        ensures
            match self.recovered_signer {
                Some(signer) => r == Some(RecoveredTransaction { signer, tx: self }),
                None => r is None,
            },
    {
        match self.recovered_signer {
            Some(signer) => Some(RecoveredTransaction { signer, tx: self }),
            None => None,
        }
    }
}

/// Positional data attached to a transaction when it is reported to callers
/// or observers; every field is absent for a transaction that is not (yet)
/// part of a block.
#[derive(Debug, Clone, Copy, PartialEq, Eq)]
pub struct TransactionInfo {
    pub hash: Option<u64>,
    pub index: Option<u64>,
    pub block_hash: Option<u64>,
    pub block_number: Option<u64>,
    pub base_fee: Option<u64>,
}

} // verus!
