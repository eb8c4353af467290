//! Blocks, as far as outcomes speak of them: which block, and which
//! transactions it holds in which order.

use vstd::prelude::*;

use crate::primitives::{BlockId, TxId};

verus! {

/// A block under construction: the transactions that are to go into it,
/// in order.  It has no identifier yet.
#[derive(Debug, Clone)]
pub struct PartialFuelBlock {
    /// The transactions that are to go into the block, in order.
    pub transactions: Vec<TxId>,
}

/// A finished block: its identifier and the transactions it holds, in
/// block order.
#[derive(Debug, Clone)]
pub struct Block {
    /// The identifier of the block.
    pub id: BlockId,
    /// The transactions of the block, in block order.
    pub transactions: Vec<TxId>,
}

impl Block {
    /// The identifier of the block.
    pub fn id(&self) -> (id: BlockId)
        ensures
            id == self.id,
    {
        self.id
    }
}

} // verus!
