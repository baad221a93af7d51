//! The block replay engine: sequentially replays a block's transactions over
//! one shared state overlay rooted at the block's parent, committing each
//! transaction's effect before the next one executes.
//!
//! Executing a transaction is the external engine's job, so the replay is a
//! step machine: the host asks for the current planned transaction, executes
//! it against the engine's overlay, and hands the outcome back to `record`,
//! which commits the state diff when more transactions remain. The engine
//! guarantees the sequential-commit discipline: the overlay a transaction
//! sees is exactly the left fold of all earlier outcomes' diffs, in
//! position order.

use vstd::prelude::*;

use crate::env::ExecutionEnvironment;
use crate::overlay::{empty_view, spec_commit, StateDiff, StateOverlay, StateSnapshot, StateView};
use crate::tx::{RecoveredTransaction, TransactionInfo};

verus! {

/// A block with its transactions, senders already recovered, as the block
/// fetch hands it out.
#[derive(Debug, Clone, PartialEq, Eq)]
pub struct RecoveredBlock {
    pub hash: u64,
    pub parent_hash: u64,
    pub number: u64,
    pub base_fee: Option<u64>,
    pub transactions: Vec<RecoveredTransaction>,
}

/// One transaction of a replay, tagged with its positional data.
#[derive(Debug, Clone, Copy, PartialEq, Eq)]
pub struct PlannedTransaction {
    pub info: TransactionInfo,
    pub tx: RecoveredTransaction,
}

/// What the execution engine reports for one executed transaction: the
/// execution result and the transaction's state diff.
#[derive(Debug, Clone, PartialEq, Eq)]
pub struct ExecutionOutcome {
    pub gas_used: u64,
    pub success: bool,
    pub output: Vec<u8>,
    pub diff: StateDiff,
}

/// How many transactions a replay of a block of length `n` with the given
/// position limit covers: all of them, or the first `limit`.
pub open spec fn spec_replay_count(n: int, limit: Option<u64>) -> int {
    match limit {
        None => n,
        Some(k) => if (k as int) < n {
            k as int
        } else {
            n
        },
    }
}

/// Lays out a replay of `block`: the first `spec_replay_count` transactions,
/// in position order, each tagged with its position, hash, and the block's
/// identity and base fee.
pub fn plan_block_replay(
    block: &RecoveredBlock,
    env: &ExecutionEnvironment,
    limit: Option<u64>,
) -> (r: Vec<PlannedTransaction>)
    ensures
        r@.len() == spec_replay_count(block.transactions@.len() as int, limit),
        forall|i: int|
            0 <= i < r@.len() ==> r@[i] == (PlannedTransaction {
                info: TransactionInfo {
                    hash: Some(block.transactions@[i].tx.hash),
                    index: Some(i as u64),
                    block_hash: Some(block.hash),
                    block_number: Some(env.block.number),
                    base_fee: Some(env.block.base_fee),
                },
                tx: block.transactions@[i],
            }),
{
    let n = block.transactions.len();
    let count: usize = match limit {
        None => n,
        Some(k) => if k < n as u64 {
            k as usize
        } else {
            n
        },
    };
    let mut r: Vec<PlannedTransaction> = Vec::new();
    let mut i: usize = 0;
    while i < count
        invariant
            i <= count,
            count <= block.transactions@.len(),
            count == spec_replay_count(block.transactions@.len() as int, limit),
            r@.len() == i,
            forall|j: int|
                0 <= j < i ==> r@[j] == (PlannedTransaction {
                    info: TransactionInfo {
                        hash: Some(block.transactions@[j].tx.hash),
                        index: Some(j as u64),
                        block_hash: Some(block.hash),
                        block_number: Some(env.block.number),
                        base_fee: Some(env.block.base_fee),
                    },
                    tx: block.transactions@[j],
                }),
        decreases count - i,
    {
        let tx = block.transactions[i];
        r.push(
            PlannedTransaction {
                info: TransactionInfo {
                    hash: Some(tx.tx.hash),
                    index: Some(i as u64),
                    block_hash: Some(block.hash),
                    block_number: Some(env.block.number),
                    base_fee: Some(env.block.base_fee),
                },
                tx,
            },
        );
        i = i + 1;
    }
    r
}

/// The diffs of a run of outcomes, in order.
pub open spec fn diffs_of(outcomes: Seq<ExecutionOutcome>) -> Seq<StateDiff> {
    outcomes.map(|i: int, o: ExecutionOutcome| o.diff)
}

/// The write layer that a run of diffs, committed in order onto an empty
/// write layer, leaves behind.
pub open spec fn writes_after(diffs: Seq<StateDiff>) -> StateView
    decreases diffs.len(),
{
    if diffs.len() == 0 {
        empty_view()
    } else {
        spec_commit(writes_after(diffs.drop_last()), diffs.last())
    }
}

/// Folding one more diff is committing it on top of the fold so far.
pub proof fn lemma_writes_after_push(diffs: Seq<StateDiff>, d: StateDiff)
    ensures
        writes_after(diffs.push(d)) == spec_commit(writes_after(diffs), d),
{
    assert(diffs.push(d).drop_last() =~= diffs);
    assert(diffs.push(d).last() == d);
}

/// Sequential-effect law: replay is a strict left fold. The write layer
/// after the first `i + 1` commits is the write layer after the first `i`
/// commits with diff `i` applied on top — never an independent
/// per-transaction application.
pub proof fn lemma_replay_is_left_fold(diffs: Seq<StateDiff>, i: int)
    requires
        0 <= i < diffs.len(),
    ensures
        writes_after(diffs.take(i + 1)) == spec_commit(writes_after(diffs.take(i)), diffs[i]),
{
    assert(diffs.take(i + 1) =~= diffs.take(i).push(diffs[i]));
    lemma_writes_after_push(diffs.take(i), diffs[i]);
}

/// How many of the first `next` outcomes' diffs have been committed: all of
/// them, except that the final transaction's diff is never committed — the
/// overlay is discarded when the replay ends.
pub open spec fn committed_count(next: int, total: int) -> int {
    if next == total && total > 0 {
        total - 1
    } else {
        next
    }
}

/// A replay in progress: the environment shared by all its transactions, the
/// planned transactions, the shared overlay, and the outcomes recorded so
/// far. `next` is the position the engine is waiting on.
#[derive(Debug)]
pub struct BlockReplay {
    pub env: ExecutionEnvironment,
    pub plan: Vec<PlannedTransaction>,
    pub overlay: StateOverlay,
    pub next: usize,
    pub outcomes: Vec<ExecutionOutcome>,
}

impl BlockReplay {
    /// The diffs that have been committed into the overlay so far.
    pub open spec fn committed_prefix(&self) -> Seq<StateDiff> {
        diffs_of(self.outcomes@).take(committed_count(self.next as int, self.plan@.len() as int))
    }

    /// The replay discipline: one outcome per executed position, and the
    /// overlay's write layer is exactly the left fold of the committed
    /// diffs, in position order.
    pub open spec fn wf(&self) -> bool {
        &&& self.next <= self.plan@.len()
        &&& self.outcomes@.len() == self.next
        &&& self.overlay.writes() == writes_after(self.committed_prefix())
    }

    /// Starts a replay: the overlay is rooted at the given snapshot of the
    /// block's parent state, with nothing executed yet.
    pub fn new(env: ExecutionEnvironment, plan: Vec<PlannedTransaction>, base: StateSnapshot) -> (r:
        Self)
        ensures
            r.wf(),
            r.env == env,
            r.plan == plan,
            r.next == 0,
            r.outcomes@.len() == 0,
            r.overlay.base() == base@,
            r.overlay.writes() == empty_view(),
    {
        let overlay = StateOverlay::new(base);
        let r = BlockReplay { env, plan, overlay, next: 0, outcomes: Vec::new() };
        proof {
            assert(r.committed_prefix() =~= Seq::<StateDiff>::empty());
        }
        r
    }

    /// Whether every planned transaction has been executed and recorded.
    pub fn is_done(&self) -> (r: bool)
        ensures
            r == (self.next == self.plan@.len()),
    {
        self.next == self.plan.len()
    }

    /// The transaction the replay is waiting on. The host must execute it
    /// against this engine's overlay, under this engine's environment.
    pub fn current(&self) -> (r: PlannedTransaction)
        requires
            self.next < self.plan@.len(),
        ensures
            r == self.plan@[self.next as int],
    {
        self.plan[self.next]
    }

    /// Records the outcome of executing the current transaction. When more
    /// transactions remain, the outcome's diff is committed into the overlay
    /// before the next one executes, so that it observes all prior effects;
    /// the final outcome's diff is not committed, as the overlay is
    /// discarded with the replay. The base layer is untouched either way.
    pub fn record(&mut self, outcome: ExecutionOutcome)
        requires
            old(self).wf(),
            old(self).next < old(self).plan@.len(),
        ensures
            final(self).wf(),
            final(self).env == old(self).env,
            final(self).plan == old(self).plan,
            final(self).next == old(self).next + 1,
            final(self).outcomes@ == old(self).outcomes@.push(outcome),
            final(self).overlay.base() == old(self).overlay.base(),
            old(self).next + 1 < old(self).plan@.len() ==> final(self).overlay.writes()
                == spec_commit(old(self).overlay.writes(), outcome.diff),
            old(self).next + 1 == old(self).plan@.len() ==> final(self).overlay.writes() == old(
                self,
            ).overlay.writes(),
    {
        let total = self.plan.len();
        let more = self.next < total - 1;
        if more {
            self.overlay.commit(&outcome.diff);
        }
        let ghost d = outcome.diff;
        self.outcomes.push(outcome);
        self.next = self.next + 1;
        proof {
            let total = self.plan@.len() as int;
            let oldn = old(self).next as int;
            assert(diffs_of(self.outcomes@) =~= diffs_of(old(self).outcomes@).push(d));
            if oldn + 1 < total {
                assert(self.committed_prefix() =~= old(self).committed_prefix().push(d));
                lemma_writes_after_push(old(self).committed_prefix(), d);
            } else {
                assert(self.committed_prefix() =~= old(self).committed_prefix());
            }
        }
    }

    /// Ends the replay and hands back the ordered outcomes, one per executed
    /// position.
    pub fn finish(self) -> (r: Vec<ExecutionOutcome>)
        ensures
            r == self.outcomes,
    {
        self.outcomes
    }
}

/// The state a replay presents to its next transaction is the left fold of
/// every outcome recorded so far: with the fold-step law above, the replay
/// is equivalent to executing all earlier transactions in order into one
/// overlay and only then executing the next.
pub proof fn lemma_sequential_effect(r: BlockReplay)
    requires
        r.wf(),
        r.next < r.plan@.len(),
    ensures
        r.overlay.writes() == writes_after(diffs_of(r.outcomes@)),
{
    assert(r.committed_prefix() =~= diffs_of(r.outcomes@));
}

/// Limit truncation: a replay limited to `k` positions on a block longer
/// than `k` plans exactly the positions `0 .. k`, in order.
pub proof fn lemma_limit_truncation(n: int, k: u64)
    requires
        (k as int) < n,
    ensures
        spec_replay_count(n, Some(k)) == k as int,
{
}

} // verus!
