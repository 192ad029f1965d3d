//! What the builder asks `grin_core` for. A request can only be made here,
//! from what it is for, so that what is asked is what these functions say.

use vstd::prelude::*;
use crate::node::build_block::Draft;
use crate::node::fees::{spec_transactions, MineableTx};
use crate::node::mine_block::BlockFees;
use crate::node::types::ChainHead;

verus! {

/// What the keychain and `grin_core` are asked for when a reward is burnt.
pub struct BurnRequest {
    depth: u8,
    d1: u32,
    d2: u32,
    d3: u32,
    d4: u32,
    fees: u64,
    test_mode: bool,
}

impl BurnRequest {
    /// How deep the path of the key goes.
    pub closed spec fn spec_depth(&self) -> u8 {
        self.depth
    }

    /// The four steps of the path of the key.
    pub closed spec fn spec_path(&self) -> (u32, u32, u32, u32) {
        (self.d1, self.d2, self.d3, self.d4)
    }

    /// The fees that the reward is made for.
    pub closed spec fn spec_fees(&self) -> u64 {
        self.fees
    }

    /// Whether the kernel is signed with a fixed nonce, as tests do.
    pub closed spec fn spec_test_mode(&self) -> bool {
        self.test_mode
    }

    /// The request is the one for a burnt reward for `block_fees`: the reward
    /// for these fees, for the key one step deep at the path 1, 0, 0, 0,
    /// signed as in production.
    pub open spec fn is_for(&self, block_fees: BlockFees) -> bool {
        &&& self.spec_depth() == 1
        &&& self.spec_path() == (1u32, 0u32, 0u32, 0u32)
        &&& self.spec_fees() == block_fees.fees
        &&& !self.spec_test_mode()
    }

    /// How deep the path of the key goes.
    pub fn depth(&self) -> (depth: u8)
        ensures
            depth == self.spec_depth(),
    {
        self.depth
    }

    /// The four steps of the path of the key.
    pub fn path(&self) -> (path: (u32, u32, u32, u32))
        ensures
            path == self.spec_path(),
    {
        (self.d1, self.d2, self.d3, self.d4)
    }

    /// The fees that the reward is made for.
    pub fn fees(&self) -> (fees: u64)
        ensures
            fees == self.spec_fees(),
    {
        self.fees
    }

    /// Whether the kernel is signed with a fixed nonce, as tests do.
    pub fn test_mode(&self) -> (test_mode: bool)
        ensures
            test_mode == self.spec_test_mode(),
    {
        self.test_mode
    }
}

/// The request for a burnt reward for `block_fees`.
pub fn burn_request(block_fees: &BlockFees) -> (request: BurnRequest)
    ensures
        request.is_for(*block_fees),
{
    BurnRequest { depth: 1, d1: 1, d2: 0, d3: 0, d4: 0, fees: block_fees.fees, test_mode: false }
}

/// What `grin_core` is asked to make a block of.
pub struct BlockParts {
    head: ChainHead,
    txs: Vec<grin_core::core::Transaction>,
    output: grin_core::core::Output,
    kernel: grin_core::core::TxKernel,
    difficulty: grin_core::pow::Difficulty,
}

impl BlockParts {
    /// The head of the chain, which the block follows.
    pub closed spec fn spec_head(&self) -> ChainHead {
        self.head
    }

    /// The transactions of the block.
    pub closed spec fn spec_txs(&self) -> Seq<grin_core::core::Transaction> {
        self.txs@
    }

    /// The coinbase output.
    pub closed spec fn spec_output(&self) -> grin_core::core::Output {
        self.output
    }

    /// The coinbase kernel.
    pub closed spec fn spec_kernel(&self) -> grin_core::core::TxKernel {
        self.kernel
    }

    /// The difficulty that the block must meet.
    pub closed spec fn spec_difficulty(&self) -> grin_core::pow::Difficulty {
        self.difficulty
    }

    /// The parts are those of a block on top of `head` with the difficulty
    /// `difficulty`, the transactions `txs` in their order and the coinbase
    /// `output` and `kernel`.
    pub open spec fn is_for(
        &self,
        head: ChainHead,
        difficulty: grin_core::pow::Difficulty,
        txs: Seq<MineableTx>,
        output: grin_core::core::Output,
        kernel: grin_core::core::TxKernel,
    ) -> bool {
        &&& self.spec_head() == head
        &&& self.spec_txs() == spec_transactions(txs)
        &&& self.spec_output() == output
        &&& self.spec_kernel() == kernel
        &&& self.spec_difficulty() == difficulty
    }

    /// The head of the chain, which the block follows.
    pub fn head(&self) -> (head: &ChainHead)
        ensures
            *head == self.spec_head(),
    {
        &self.head
    }

    /// The transactions of the block.
    pub fn txs(&self) -> (txs: &Vec<grin_core::core::Transaction>)
        ensures
            txs@ == self.spec_txs(),
    {
        &self.txs
    }

    /// The coinbase output.
    pub fn output(&self) -> (output: grin_core::core::Output)
        ensures
            output == self.spec_output(),
    {
        self.output
    }

    /// The coinbase kernel.
    pub fn kernel(&self) -> (kernel: grin_core::core::TxKernel)
        ensures
            kernel == self.spec_kernel(),
    {
        self.kernel
    }

    /// The difficulty that the block must meet.
    pub fn difficulty(&self) -> (difficulty: grin_core::pow::Difficulty)
        ensures
            difficulty == self.spec_difficulty(),
    {
        self.difficulty
    }
}

/// What the block of `draft` with the coinbase `output` and `kernel` is made
/// of.
pub fn block_parts(
    draft: Draft,
    output: grin_core::core::Output,
    kernel: grin_core::core::TxKernel,
) -> (parts: BlockParts)
    ensures
        parts.is_for(
            draft.head,
            draft.difficulty.difficulty,
            draft.txs.spec_txs(),
            output,
            kernel,
        ),
{
    let txs = draft.txs.transactions();
    BlockParts { head: draft.head, txs, output, kernel, difficulty: draft.difficulty.difficulty }
}

} // verus!
