//! The transactions that go into a block, and their fees.

use vstd::prelude::*;
use crate::node::outside::{clone_transaction, spec_transaction_fee, transaction_fee};

verus! {

/// A transaction that the pool offers for the next block, with its fee.
pub struct MineableTx {
    tx: grin_core::core::Transaction,
    fee: u64,
}

impl MineableTx {
    /// The transaction itself.
    pub closed spec fn spec_tx(&self) -> grin_core::core::Transaction {
        self.tx
    }

    /// The fee that the transaction pays.
    pub closed spec fn spec_fee(&self) -> u64 {
        self.fee
    }

    /// Reads the fee of `tx`.
    pub fn new(tx: grin_core::core::Transaction) -> (mineable: MineableTx)
        ensures
            mineable.spec_tx() == tx,
            mineable.spec_fee() == spec_transaction_fee(tx),
    {
        let fee = transaction_fee(&tx);
        MineableTx { tx, fee }
    }

    /// The transaction itself.
    pub fn tx(&self) -> (tx: &grin_core::core::Transaction)
        ensures
            *tx == self.spec_tx(),
    {
        &self.tx
    }

    /// The fee that the transaction pays.
    #[verifier::when_used_as_spec(spec_fee)]
    pub fn fee(&self) -> (fee: u64)
        ensures
            fee == self.spec_fee(),
    {
        self.fee
    }
}

/// The fees of `txs`, added up.
pub open spec fn spec_total_fees(txs: Seq<MineableTx>) -> int
    decreases txs.len(),
{
    if txs.len() == 0 {
        0
    } else {
        spec_total_fees(txs.drop_last()) + txs.last().spec_fee()
    }
}

/// The fees of the first transactions of a list are no more than the fees of
/// the whole list.
pub proof fn lemma_total_fees_prefix(txs: Seq<MineableTx>, n: int)
    requires
        0 <= n <= txs.len(),
    ensures
        0 <= spec_total_fees(txs.subrange(0, n)) <= spec_total_fees(txs),
    decreases txs.len() - n,
{
    lemma_total_fees_nonnegative(txs.subrange(0, n));
    if n < txs.len() {
        lemma_total_fees_prefix(txs, n + 1);
        let longer = txs.subrange(0, n + 1);
        assert(longer.drop_last() =~= txs.subrange(0, n));
    } else {
        assert(txs.subrange(0, n) =~= txs);
    }
}

/// Fees are never negative.
pub proof fn lemma_total_fees_nonnegative(txs: Seq<MineableTx>)
    ensures
        spec_total_fees(txs) >= 0,
    decreases txs.len(),
{
    if txs.len() > 0 {
        lemma_total_fees_nonnegative(txs.drop_last());
    }
}

/// A block without transactions has no fees.
pub proof fn lemma_no_transactions_no_fees()
    ensures
        spec_total_fees(Seq::<MineableTx>::empty()) == 0,
{
}

/// The fees of two lists, one after the other, are the fees of the first plus
/// the fees of the second: every transaction counts once.
pub proof fn lemma_total_fees_concat(first: Seq<MineableTx>, second: Seq<MineableTx>)
    ensures
        spec_total_fees(first + second) == spec_total_fees(first) + spec_total_fees(second),
    decreases second.len(),
{
    if second.len() == 0 {
        assert(first + second =~= first);
    } else {
        lemma_total_fees_concat(first, second.drop_last());
        assert((first + second).drop_last() =~= first + second.drop_last());
        assert((first + second).last() == second.last());
    }
}

/// The fees of `txs`, added up; `None` when the sum does not fit 64 bits.
pub fn total_fees(txs: &Vec<MineableTx>) -> (total: Option<u64>)
    ensures
        spec_total_fees(txs@) <= u64::MAX ==> total == Some(spec_total_fees(txs@) as u64),
        spec_total_fees(txs@) > u64::MAX ==> total.is_none(),
{
    let mut sum: u64 = 0;
    let mut i: usize = 0;
    while i < txs.len()
        invariant
            0 <= i <= txs.len(),
            sum == spec_total_fees(txs@.subrange(0, i as int)),
        decreases txs.len() - i,
    {
        let fee = txs[i].fee();
        proof {
            let longer = txs@.subrange(0, i + 1);
            assert(longer.drop_last() =~= txs@.subrange(0, i as int));
            assert(longer.last() == txs@[i as int]);
            lemma_total_fees_prefix(txs@, i + 1);
        }
        if fee > u64::MAX - sum {
            return None;
        }
        sum = sum + fee;
        i = i + 1;
    }
    proof {
        assert(txs@.subrange(0, i as int) =~= txs@);
    }
    Some(sum)
}

/// The transactions themselves of a list of transactions with their fees.
pub open spec fn spec_transactions(txs: Seq<MineableTx>) -> Seq<grin_core::core::Transaction> {
    Seq::new(txs.len(), |i: int| txs[i].spec_tx())
}

/// The transactions of a block: a list whose fees, added up, fit 64 bits.
pub struct Mineable {
    txs: Vec<MineableTx>,
}

impl Mineable {
    #[verifier::type_invariant]
    spec fn inv(&self) -> bool {
        spec_total_fees(self.txs@) <= u64::MAX
    }

    /// The transactions, in the order in which the pool offered them.
    pub closed spec fn spec_txs(&self) -> Seq<MineableTx> {
        self.txs@
    }

    /// The fees of the transactions fit 64 bits.
    pub open spec fn fits(&self) -> bool {
        spec_total_fees(self.spec_txs()) <= u64::MAX
    }

    /// No transactions.
    pub fn empty() -> (mineable: Mineable)
        ensures
            mineable.spec_txs() == Seq::<MineableTx>::empty(),
    {
        Mineable { txs: Vec::new() }
    }

    /// The list `txs`; `None` when the fees, added up, do not fit 64 bits.
    pub fn new(txs: Vec<MineableTx>) -> (mineable: Option<Mineable>)
        ensures
            spec_total_fees(txs@) <= u64::MAX ==> (mineable matches Some(m) && m.spec_txs()
                == txs@),
            spec_total_fees(txs@) > u64::MAX ==> mineable is None,
    {
        match total_fees(&txs) {
            Some(_) => Some(Mineable { txs }),
            None => None,
        }
    }

    /// The transactions, in the order in which the pool offered them.
    pub fn txs(&self) -> (txs: &Vec<MineableTx>)
        ensures
            txs@ == self.spec_txs(),
    {
        &self.txs
    }

    /// Copies of the transactions, in the same order.
    pub fn transactions(&self) -> (txs: Vec<grin_core::core::Transaction>)
        ensures
            txs@ == spec_transactions(self.spec_txs()),
    {
        let mut txs: Vec<grin_core::core::Transaction> = Vec::new();
        let mut i: usize = 0;
        while i < self.txs.len()
            invariant
                0 <= i <= self.txs.len(),
                txs@ == spec_transactions(self.txs@.subrange(0, i as int)),
            decreases self.txs.len() - i,
        {
            txs.push(clone_transaction(self.txs[i].tx()));
            assert(spec_transactions(self.txs@.subrange(0, i + 1)) =~= spec_transactions(
                self.txs@.subrange(0, i as int),
            ).push(self.txs@[i as int].spec_tx()));
            i = i + 1;
        }
        assert(self.txs@.subrange(0, i as int) =~= self.txs@);
        txs
    }

    /// The fees of the transactions, added up.
    pub fn total_fees(&self) -> (total: u64)
        ensures
            total == spec_total_fees(self.spec_txs()),
            self.fits(),
    {
        proof {
            use_type_invariant(self);
            lemma_total_fees_nonnegative(self.txs@);
        }
        match total_fees(&self.txs) {
            Some(total) => total,
            None => 0,
        }
    }
}

} // verus!
