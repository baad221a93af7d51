//! Choosing the signer for a submission. The registry itself — key custody
//! and the signature computation — is a collaborator; what is decided here
//! is which registered signer a request goes to.

use vstd::prelude::*;

use crate::error::EthApiError;

verus! {

/// Picks the signer for `from` out of the registry, given the account each
/// registered signer manages, in registration order: the first match wins.
/// Fails exactly when no registered signer manages the account.
pub fn find_signer(managed_accounts: &Vec<u64>, from: u64) -> (r: Result<usize, EthApiError>)
    ensures
        match r {
            Ok(i) => i < managed_accounts@.len() && managed_accounts@[i as int] == from && (forall|
                j: int,
            | 0 <= j < i ==> managed_accounts@[j] != from),
            Err(e) => e == EthApiError::NoSignerForAccount && (forall|j: int|
                0 <= j < managed_accounts@.len() ==> managed_accounts@[j] != from),
        },
{
    let n = managed_accounts.len();
    let mut i: usize = 0;
    while i < n
        invariant
            i <= n,
            n == managed_accounts@.len(),
            forall|j: int| 0 <= j < i ==> managed_accounts@[j] != from,
        decreases n - i,
    {
        if managed_accounts[i] == from {
            return Ok(i);
        }
        i = i + 1;
    }
    Err(EthApiError::NoSignerForAccount)
}

} // verus!
