//! What the execution of a block gives: the block, what became of each
//! transaction in it, and the transactions that were left out.

use vstd::prelude::*;

use crate::block::Block;
use crate::error::Error;
use crate::primitives::{Bytes32, TxId};
use crate::vm::ProgramState;

verus! {

/// How the execution of one transaction of the block ended.
#[derive(Debug, Clone)]
pub enum TransactionExecutionResult {
    /// The transaction was executed without failure.
    Success {
        /// The state in which its program stopped, if it ran one.
        result: Option<ProgramState>,
    },
    /// The execution failed.  The transaction is in the block all the same.
    Failed {
        /// The state in which its program stopped, if it ran one.
        result: Option<ProgramState>,
        /// Why the execution failed, for a reader.
        reason: String,
    },
}

/// A transaction of the block together with how its execution ended.
#[derive(Debug, Clone)]
pub struct TransactionExecutionStatus {
    /// The identifier of the transaction.
    pub id: Bytes32,
    /// How its execution ended.
    pub result: TransactionExecutionResult,
}

/// The outcome of executing a block.
///
/// Every transaction that was attempted is either in `block`, with one
/// entry in `tx_status`, or in `skipped_transactions`, never both: see
/// [`ExecutionResult::wf`].
#[derive(Debug)]
pub struct ExecutionResult {
    /// The block that the execution made.  It holds the transactions that
    /// were accepted and no others.
    pub block: Block,
    /// The transactions that were left out, each with the reason, in the
    /// order in which they were attempted.  They did not change the state.
    pub skipped_transactions: Vec<(TxId, Error)>,
    /// How the execution of each transaction of the block ended, in block
    /// order.
    pub tx_status: Vec<TransactionExecutionStatus>,
}

/// Whether `id` is among the first `upto` of `ids`.
fn among_first(ids: &Vec<TxId>, upto: usize, id: &TxId) -> (found: bool)
    requires
        upto <= ids.len(),
    ensures
        found == ids@.take(upto as int).contains(*id),
{
    let mut i: usize = 0;
    while i < upto
        invariant
            i <= upto <= ids.len(),
            forall|j: int| 0 <= j < i ==> ids@[j] != *id,
        decreases upto - i,
    {
        if ids[i] == *id {
            assert(ids@.take(upto as int)[i as int] == *id);
            return true;
        }
        i = i + 1;
    }
    false
}

impl ExecutionResult {
    /// The identifiers of the transactions of the block, in block order.
    pub open spec fn included_ids(self) -> Seq<TxId> {
        self.block.transactions@
    }

    /// The identifiers that `tx_status` speaks of, in its order.
    pub open spec fn status_ids(self) -> Seq<TxId> {
        Seq::new(self.tx_status@.len(), |i: int| self.tx_status@[i].id)
    }

    /// The identifiers of the transactions that were left out, in the order
    /// in which they were attempted.
    pub open spec fn skipped_ids(self) -> Seq<TxId> {
        Seq::new(self.skipped_transactions@.len(), |i: int| self.skipped_transactions@[i].0)
    }

    /// The outcome is well formed:
    /// no transaction is in the block twice; `tx_status` has one entry for
    /// each transaction of the block, in block order; and no transaction
    /// that was left out is in the block.
    pub open spec fn wf(self) -> bool {
        &&& self.included_ids().no_duplicates()
        &&& self.status_ids() == self.included_ids()
        &&& forall|i: int|
            0 <= i < self.skipped_ids().len() ==> !self.included_ids().contains(
                #[trigger] self.skipped_ids()[i],
            )
    }

    /// Whether the transactions of the block are told apart by their
    /// identifiers.
    fn block_ids_differ(&self) -> (differ: bool)
        ensures
            differ == self.included_ids().no_duplicates(),
    {
        let ids = &self.block.transactions;
        let mut i: usize = 0;
        while i < ids.len()
            invariant
                i <= ids.len(),
                ids@ == self.included_ids(),
                ids@.take(i as int).no_duplicates(),
            decreases ids.len() - i,
        {
            if among_first(ids, i, &ids[i]) {
                proof {
                    let j = choose|j: int|
                        0 <= j < i && ids@.take(i as int)[j] == ids@[i as int];
                    assert(ids@[j] == ids@[i as int]);
                }
                return false;
            }
            assert(ids@.take(i + 1) =~= ids@.take(i as int).push(ids@[i as int]));
            i = i + 1;
        }
        assert(ids@.take(i as int) =~= ids@);
        true
    }

    /// Whether `tx_status` speaks of the transactions of the block, one
    /// after the other.
    fn statuses_follow_block(&self) -> (follow: bool)
        ensures
            follow == (self.status_ids() == self.included_ids()),
    {
        let ids = &self.block.transactions;
        if self.tx_status.len() != ids.len() {
            return false;
        }
        let mut i: usize = 0;
        while i < ids.len()
            invariant
                i <= ids.len(),
                ids@ == self.included_ids(),
                self.tx_status@.len() == ids@.len(),
                forall|j: int| 0 <= j < i ==> self.status_ids()[j] == ids@[j],
            decreases ids.len() - i,
        {
            if !(self.tx_status[i].id == ids[i]) {
                assert(self.status_ids()[i as int] != self.included_ids()[i as int]);
                return false;
            }
            i = i + 1;
        }
        assert(self.status_ids() =~= self.included_ids());
        true
    }

    /// Whether none of the transactions that were left out is in the block.
    fn skipped_are_left_out(&self) -> (left_out: bool)
        ensures
            left_out == (forall|i: int|
                0 <= i < self.skipped_ids().len() ==> !self.included_ids().contains(
                    #[trigger] self.skipped_ids()[i],
                )),
    {
        let ids = &self.block.transactions;
        let mut i: usize = 0;
        while i < self.skipped_transactions.len()
            invariant
                i <= self.skipped_transactions.len(),
                ids@ == self.included_ids(),
                forall|j: int|
                    0 <= j < i ==> !self.included_ids().contains(#[trigger] self.skipped_ids()[j]),
            decreases self.skipped_transactions.len() - i,
        {
            assert(ids@.take(ids.len() as int) =~= ids@);
            if among_first(ids, ids.len(), &self.skipped_transactions[i].0) {
                assert(self.included_ids().contains(self.skipped_ids()[i as int]));
                return false;
            }
            i = i + 1;
        }
        true
    }

    /// Whether the outcome is well formed.
    pub fn is_consistent(&self) -> (consistent: bool)
        ensures
            consistent == self.wf(),
    {
        self.block_ids_differ() && self.statuses_follow_block() && self.skipped_are_left_out()
    }

    /// The outcome made of the three parts, where they fit together; `None`
    /// where they do not.
    pub fn new(
        block: Block,
        skipped_transactions: Vec<(TxId, Error)>,
        tx_status: Vec<TransactionExecutionStatus>,
    ) -> (made: Option<ExecutionResult>)
        ensures
            made is Some <==> (ExecutionResult { block, skipped_transactions, tx_status }).wf(),
            made is Some ==> made->0 == (ExecutionResult { block, skipped_transactions, tx_status }),
    {
        let result = ExecutionResult { block, skipped_transactions, tx_status };
        if result.is_consistent() {
            Some(result)
        } else {
            None
        }
    }
}

/// In a well-formed outcome the transactions that `tx_status` speaks of are
/// exactly the transactions of the block, and none of them was left out.
pub proof fn lemma_status_ids_are_block_ids(result: ExecutionResult)
    requires
        result.wf(),
    ensures
        result.status_ids().to_set() == result.included_ids().to_set(),
        result.status_ids().to_set().disjoint(result.skipped_ids().to_set()),
{
    assert forall|id: TxId|
        !(result.status_ids().to_set().contains(id) && result.skipped_ids().to_set().contains(
            id,
        )) by {
        if result.skipped_ids().contains(id) {
            let i = choose|i: int| 0 <= i < result.skipped_ids().len() && result.skipped_ids()[i] == id;
            assert(!result.included_ids().contains(result.skipped_ids()[i]));
        }
    }
}

/// An outcome together with the changes to the database that would make it
/// last.  Whoever holds the pair decides whether the changes are committed
/// or dropped.
#[derive(Debug)]
pub struct Uncommitted<R, D> {
    /// The outcome.
    pub result: R,
    /// The changes to the database, not yet committed.
    pub database_transaction: D,
}

/// The outcome of executing a block, not yet committed.
pub type UncommittedResult<D> = Uncommitted<ExecutionResult, D>;

impl<R, D> Uncommitted<R, D> {
    /// Pairs an outcome with the changes that would make it last.
    pub fn new(result: R, database_transaction: D) -> (pair: Uncommitted<R, D>)
        ensures
            pair == (Uncommitted { result, database_transaction }),
    {
        Uncommitted { result, database_transaction }
    }

    /// The outcome, with the changes left where they are.
    pub fn result(&self) -> (result: &R)
        ensures
            *result == self.result,
    {
        &self.result
    }

    /// The outcome and the changes, apart.
    pub fn into(self) -> (parts: (R, D))
        ensures
            parts == (self.result, self.database_transaction),
    {
        (self.result, self.database_transaction)
    }

    /// The outcome; the changes are dropped.
    pub fn into_result(self) -> (result: R)
        ensures
            result == self.result,
    {
        self.result
    }

    /// The changes; the outcome is dropped.
    pub fn into_transaction(self) -> (database_transaction: D)
        ensures
            database_transaction == self.database_transaction,
    {
        self.database_transaction
    }
}

} // verus!
