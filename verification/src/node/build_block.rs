//! One attempt to build a block for mining: the head of the chain as its
//! predecessor, the transactions that the pool offers, and a coinbase from the
//! wallet or, without a wallet, one that nobody can spend.
//!
//! The chain, the pool and the wallet are reached by the caller.
//! [`build_block`] decides what the attempt asks for next and what it makes of
//! each answer.

use vstd::prelude::*;
use grin_keychain::Identifier;
use crate::node::coinbase::{
    coinbase_from_data, get_coinbase, is_burnt, is_reading_of, read_coinbase_reply, same_reply,
    spec_coinbase_from_data, spec_coinbase_reply, spec_envelope, CoinbaseRequest, CoinbaseStep,
    Reading, WalletFailure,
};
use crate::node::fees::{lemma_total_fees_nonnegative, spec_total_fees, Mineable, MineableTx};
use crate::node::mine_block::{
    lemma_timestamp_after_head, next_timestamp, spec_get_block, spec_next_timestamp,
    spec_retry_key, BlockFees, BlockRequest, CbData, RetryAction, RetryEvent, RetryState,
};
use crate::node::outside::{
    active_chain, block_from_reward, clock_seconds, difficulty_num, header_total_difficulty,
    random_nonce, spec_block_height, spec_block_nonce, spec_block_prev_hash, spec_block_scaling,
    spec_block_timestamp, spec_difficulty_num, spec_header_hash, spec_header_total_difficulty,
    spec_is_date, stamp_header, validate_block, StampedBlock,
};
use crate::node::requests::block_parts;
use crate::node::types::{
    BuildError, BuildErrorView, ChainError, ChainHead, HeaderStamp, NextDifficulty,
};

verus! {

/// What a block is assembled from, but for its coinbase.
pub struct Draft {
    /// The head of the chain, which the block follows.
    pub head: ChainHead,
    /// The time of the block, in seconds since the Unix epoch.
    pub timestamp: i64,
    /// The difficulty that the block must meet.
    pub difficulty: NextDifficulty,
    /// The transactions of the block.
    pub txs: Mineable,
}

/// Where one attempt to build a block stands.
pub enum BuildState {
    /// The head of the chain was asked for.
    HeadRequested { key_id: Option<Identifier>, wallet_listener_url: Option<String> },
    /// The difficulty of the next block was asked for.
    DifficultyRequested {
        key_id: Option<Identifier>,
        wallet_listener_url: Option<String>,
        head: ChainHead,
        timestamp: i64,
    },
    /// The pool was asked for its transactions.
    TransactionsRequested {
        key_id: Option<Identifier>,
        wallet_listener_url: Option<String>,
        head: ChainHead,
        timestamp: i64,
        difficulty: NextDifficulty,
    },
    /// The wallet at `dest` was asked for a coinbase.
    CoinbaseRequested { dest: String, draft: Draft, block_fees: BlockFees },
    /// The answer of the wallet is being decoded.
    CoinbaseDecoding { draft: Draft, block_fees: BlockFees },
    /// The chain was asked to set the roots of the block that carries
    /// `stamp` in its header.
    RootsRequested { block_fees: BlockFees, stamp: HeaderStamp },
    /// The attempt is over.
    Finished,
}

/// What the caller reports to an attempt.
pub enum BuildEvent {
    /// The head of the chain, or why the chain has none to give.
    Head(Result<ChainHead, ChainError>),
    /// The difficulty of the next block, or why the chain has none to give.
    Difficulty(Result<NextDifficulty, ChainError>),
    /// The transactions that the pool offers, or why it offers none.
    Transactions(Result<Mineable, String>),
    /// The text that the wallet answered, or why it did not answer.
    CoinbaseReply(Result<String, WalletFailure>),
    /// The coinbase that the answer of the wallet holds, or why it holds
    /// none.
    CoinbaseDecoded(Result<CbData, String>),
    /// The block with its roots set, or why the chain did not set them.
    Roots(Result<grin_core::core::Block, ChainError>),
}

/// What an attempt asks its caller to do.
pub enum BuildAction {
    /// Read the head of the chain.
    FetchHead,
    /// Compute the difficulty of the block at this height from the chain.
    FetchDifficulty { height: u64 },
    /// Ask the pool for the transactions that can go into the next block.
    SelectTransactions,
    /// Send this request to the wallet.
    RequestCoinbase(CoinbaseRequest),
    /// Decode this JSON text as a coinbase.
    DecodeCoinbase { json: String },
    /// Let the chain set the roots and sizes in the header of this block.
    SetRoots(grin_core::core::Block),
    /// The attempt is over: the block and its fees, or why there is none.
    Done(Result<(grin_core::core::Block, BlockFees), BuildError>),
}

/// The fees of a block on top of `head` that holds `txs`, for a coinbase made
/// with `key_id`.
pub open spec fn spec_block_fees(key_id: Option<Identifier>, head: ChainHead, txs: Seq<MineableTx>)
    -> BlockFees {
    BlockFees {
        fees: spec_total_fees(txs) as u64,
        height: (head.spec_height() + 1) as u64,
        key_id,
    }
}

/// What is written into the header of a block of time `timestamp` and
/// difficulty `difficulty`, for a search that starts at `nonce`.
pub open spec fn spec_stamp(timestamp: i64, difficulty: NextDifficulty, nonce: u32) -> HeaderStamp {
    HeaderStamp {
        nonce: nonce as u64,
        secondary_scaling: difficulty.secondary_scaling,
        timestamp,
    }
}

/// The transactions that go into the block: those that the pool offers, and
/// none where the pool fails.
pub open spec fn spec_offered(offered: Result<Mineable, String>) -> Seq<MineableTx> {
    match offered {
        Ok(txs) => txs.spec_txs(),
        Err(_) => Seq::empty(),
    }
}

/// The attempt has ended with a failure.
pub open spec fn has_failed(next: (BuildState, BuildAction)) -> bool {
    next.0 is Finished && next.1 matches BuildAction::Done(Err(_))
}

/// The failure that the attempt has ended with.
pub open spec fn failure_of(next: (BuildState, BuildAction)) -> BuildError
    recommends
        has_failed(next),
{
    next.1->Done_0->Err_0
}

/// The total difficulty of a block of difficulty `difficulty` on top of
/// `head` fits 64 bits.
pub open spec fn spec_difficulty_fits(head: ChainHead, difficulty: grin_core::pow::Difficulty)
    -> bool {
    spec_difficulty_num(difficulty) + spec_header_total_difficulty(head.spec_header()) <= u64::MAX
}

/// The header of `block` carries `stamp`, the height after `head` and the
/// hash of `head` as that of the block before it.
pub open spec fn carries(block: grin_core::core::Block, stamp: HeaderStamp, head: ChainHead)
    -> bool {
    &&& spec_block_nonce(block) == stamp.nonce
    &&& spec_block_scaling(block) == stamp.secondary_scaling
    &&& spec_block_timestamp(block) == stamp.timestamp
    &&& spec_block_height(block) == head.spec_height() + 1
    &&& spec_block_prev_hash(block) == spec_header_hash(head.spec_header())
}

/// `next` is what assembling the block for `block_fees` comes to, for what
/// came back: whether the process has a chain type, whether the total
/// difficulty fits 64 bits, why no block was made of the parts, if none was,
/// why the block is not valid, if it is not, and the block with `stamp`
/// written into its header, or none where the time of the stamp has no date.
///
/// Each of these ends the attempt in the order in which they are named; a
/// block that was stamped goes to the chain, and the attempt waits for its
/// roots with `block_fees` and `stamp`.
pub open spec fn is_assembled_with(
    next: (BuildState, BuildAction),
    block_fees: BlockFees,
    stamp: HeaderStamp,
    chain_type_set: bool,
    fits: bool,
    refused: Option<String>,
    invalid: Option<String>,
    stamped: Option<StampedBlock>,
) -> bool {
    if !chain_type_set {
        has_failed(next) && failure_of(next)@ == BuildErrorView::General("no chain type is set"@)
    } else if !fits {
        has_failed(next) && failure_of(next)@ == BuildErrorView::General(
            "the total difficulty does not fit 64 bits"@,
        )
    } else if refused is Some {
        has_failed(next) && failure_of(next)@ == BuildErrorView::Core(refused->0@)
    } else if invalid is Some {
        has_failed(next) && failure_of(next)@ == BuildErrorView::Core(invalid->0@)
    } else if stamped is None {
        has_failed(next) && failure_of(next)@ == BuildErrorView::General(
            "the time of the block has no date"@,
        )
    } else {
        next == (
            BuildState::RootsRequested { block_fees, stamp },
            BuildAction::SetRoots(stamped->0.spec_block()),
        )
    }
}

/// `next` is what assembling the block for `block_fees` on top of `head`,
/// with the difficulty `difficulty`, the transactions `txs` and the coinbase
/// `output` and `kernel`, can come to: what [`is_assembled_with`] says for
/// something that can come back. Of that, the total difficulty fits or does
/// not as the numbers say; a block is stamped only with a time that has a
/// date, and always with such a time once it is valid; and a block that was
/// stamped was made of exactly these parts and carries `stamp`, the height
/// after the head and the hash of the head.
pub open spec fn is_assembled(
    next: (BuildState, BuildAction),
    block_fees: BlockFees,
    stamp: HeaderStamp,
    head: ChainHead,
    difficulty: grin_core::pow::Difficulty,
    txs: Seq<MineableTx>,
    output: grin_core::core::Output,
    kernel: grin_core::core::TxKernel,
) -> bool {
    exists|
        chain_type_set: bool,
        refused: Option<String>,
        invalid: Option<String>,
        stamped: Option<StampedBlock>,
    |
        {
            &&& #[trigger] is_assembled_with(
                next,
                block_fees,
                stamp,
                chain_type_set,
                spec_difficulty_fits(head, difficulty),
                refused,
                invalid,
                stamped,
            )
            &&& stamped matches Some(block) ==> {
                &&& spec_is_date(stamp.timestamp as int)
                &&& carries(block.spec_block(), stamp, head)
                &&& block.spec_parts().is_for(head, difficulty, txs, output, kernel)
            }
            &&& (chain_type_set && spec_difficulty_fits(head, difficulty) && refused is None
                && invalid is None && spec_is_date(stamp.timestamp as int)) ==> stamped is Some
        }
}

/// What follows the head of the chain: the time of the block is fixed, and
/// the difficulty of the block after the head is asked for. A chain without a
/// head ends the attempt with the chain's own error.
pub open spec fn spec_on_head(
    key_id: Option<Identifier>,
    wallet_listener_url: Option<String>,
    head: Result<ChainHead, ChainError>,
    now_sec: i64,
) -> (BuildState, BuildAction) {
    match head {
        Err(error) => (BuildState::Finished, BuildAction::Done(Err(BuildError::Chain(error)))),
        Ok(head) => (
            BuildState::DifficultyRequested {
                key_id,
                wallet_listener_url,
                head,
                timestamp: spec_next_timestamp(now_sec as int, head.spec_timestamp() as int) as i64,
            },
            BuildAction::FetchDifficulty { height: (head.spec_height() + 1) as u64 },
        ),
    }
}

/// What follows the difficulty: the pool is asked for transactions. A chain
/// that gives no difficulty ends the attempt with the chain's own error.
pub open spec fn spec_on_difficulty(
    key_id: Option<Identifier>,
    wallet_listener_url: Option<String>,
    head: ChainHead,
    timestamp: i64,
    difficulty: Result<NextDifficulty, ChainError>,
) -> (BuildState, BuildAction) {
    match difficulty {
        Err(error) => (BuildState::Finished, BuildAction::Done(Err(BuildError::Chain(error)))),
        Ok(difficulty) => (
            BuildState::TransactionsRequested {
                key_id,
                wallet_listener_url,
                head,
                timestamp,
                difficulty,
            },
            BuildAction::SelectTransactions,
        ),
    }
}

/// `next` is what follows a reward that was burnt with the outcome `burnt`:
/// the block is assembled with the coinbase, or the attempt ends with the
/// failure to burn.
pub open spec fn is_built_from(
    next: (BuildState, BuildAction),
    burnt: Result<(grin_core::core::Output, grin_core::core::TxKernel, BlockFees), BuildError>,
    stamp: HeaderStamp,
    head: ChainHead,
    difficulty: grin_core::pow::Difficulty,
    txs: Seq<MineableTx>,
) -> bool {
    match burnt {
        Ok(coinbase) => is_assembled(
            next,
            coinbase.2,
            stamp,
            head,
            difficulty,
            txs,
            coinbase.0,
            coinbase.1,
        ),
        Err(error) => next == (BuildState::Finished, BuildAction::Done(Err(error))),
    }
}

/// `next` is what can follow the transactions `txs`.
///
/// The fees of the block are the fees of `txs`, added up, at the height after
/// the head. With a wallet, the wallet is asked for a coinbase for these
/// fees. Without one nobody is asked: the reward is burnt and the block
/// assembled at once, and the attempt goes on to the chain or ends with a
/// failure of the keychain, the reward or the assembly.
pub open spec fn is_priced(
    key_id: Option<Identifier>,
    wallet_listener_url: Option<String>,
    head: ChainHead,
    timestamp: i64,
    difficulty: NextDifficulty,
    txs: Seq<MineableTx>,
    nonce: u32,
    next: (BuildState, BuildAction),
) -> bool {
    let block_fees = spec_block_fees(key_id, head, txs);
    match wallet_listener_url {
        Some(dest) => {
            &&& next.0 matches BuildState::CoinbaseRequested { dest: asked, draft, block_fees: kept }
            &&& asked == dest
            &&& draft.head == head
            &&& draft.timestamp == timestamp
            &&& draft.difficulty == difficulty
            &&& draft.txs.spec_txs() == txs
            &&& kept == block_fees
            &&& next.1 matches BuildAction::RequestCoinbase(request)
            &&& request.is_for(dest@, block_fees)
        },
        None => exists|
            burnt: Result<
                (grin_core::core::Output, grin_core::core::TxKernel, BlockFees),
                BuildError,
            >,
        |
            is_burnt(burnt, block_fees) && #[trigger] is_built_from(
                next,
                burnt,
                spec_stamp(timestamp, difficulty, nonce),
                head,
                difficulty.difficulty,
                txs,
            ),
    }
}

/// `next` is what follows an answer of the wallet at `dest` in which `read`
/// was read: a coinbase is to be decoded while the draft waits unchanged; an
/// error of the wallet, and an answer that is no JSON, end the attempt with a
/// failure to talk to the wallet.
pub open spec fn is_read_answer(
    dest: String,
    draft: Draft,
    block_fees: BlockFees,
    read: Result<Reading, String>,
    next: (BuildState, BuildAction),
) -> bool {
    match spec_coinbase_reply(dest@, Ok(spec_envelope(read))) {
        Ok(json) => {
            &&& next.0 == (BuildState::CoinbaseDecoding { draft, block_fees })
            &&& next.1 matches BuildAction::DecodeCoinbase { json: text }
            &&& text@ == json
        },
        Err(failure) => has_failed(next) && failure_of(next)@ == failure,
    }
}

/// `next` is what can follow the answer of the wallet at `dest`.
///
/// A wallet that did not answer ends the attempt: with a failure of the
/// request where none could be made, and with a failure to talk to the wallet
/// where none came back. An answer is read as JSON, as [`is_reading_of`]
/// says, and what follows is what [`is_read_answer`] says for what was read.
pub open spec fn is_answered(
    dest: String,
    draft: Draft,
    block_fees: BlockFees,
    reply: Result<String, WalletFailure>,
    next: (BuildState, BuildAction),
) -> bool {
    match reply {
        Err(failure) => has_failed(next) && same_reply(
            Err(failure_of(next)),
            spec_coinbase_reply(dest@, Err(failure)),
        ),
        Ok(body) => exists|read: Result<Reading, String>|
            is_reading_of(read, body@) && #[trigger] is_read_answer(
                dest,
                draft,
                block_fees,
                read,
                next,
            ),
    }
}

/// `next` is what can follow the decoding of the wallet's answer.
///
/// What could not be decoded ends the attempt with a failure to talk to the
/// wallet. A coinbase is put into the block, whose fees then carry the key
/// that the wallet used.
pub open spec fn is_rewarded(
    draft: Draft,
    block_fees: BlockFees,
    decoded: Result<CbData, String>,
    nonce: u32,
    next: (BuildState, BuildAction),
) -> bool {
    match spec_coinbase_from_data(block_fees, decoded) {
        Err(failure) => has_failed(next) && failure_of(next)@ == failure,
        Ok(coinbase) => is_assembled(
            next,
            coinbase.2,
            spec_stamp(draft.timestamp, draft.difficulty, nonce),
            draft.head,
            draft.difficulty.difficulty,
            draft.txs.spec_txs(),
            coinbase.0,
            coinbase.1,
        ),
    }
}

/// What follows the chain's answer on the roots: the block with its fees, or
/// the chain's own error, in which a duplicate commitment stays apart from
/// every other failure.
pub open spec fn spec_on_roots(block_fees: BlockFees, roots: Result<
    grin_core::core::Block,
    ChainError,
>) -> (BuildState, BuildAction) {
    match roots {
        Ok(block) => (BuildState::Finished, BuildAction::Done(Ok((block, block_fees)))),
        Err(error) => (BuildState::Finished, BuildAction::Done(Err(BuildError::Chain(error)))),
    }
}

/// `next` is what ends an attempt that was told what it did not wait for.
pub open spec fn is_unexpected(next: (BuildState, BuildAction)) -> bool {
    &&& has_failed(next)
    &&& failure_of(next)@ == BuildErrorView::General("unexpected event"@)
}

/// `next` is what can follow `event` in `state`, for a clock that shows
/// `now_sec` and a search for a proof of work that starts at `nonce`.
pub open spec fn spec_build_block(
    state: BuildState,
    event: BuildEvent,
    now_sec: i64,
    nonce: u32,
    next: (BuildState, BuildAction),
) -> bool {
    match (state, event) {
        (
            BuildState::HeadRequested { key_id, wallet_listener_url },
            BuildEvent::Head(head),
        ) => next == spec_on_head(key_id, wallet_listener_url, head, now_sec),
        (
            BuildState::DifficultyRequested { key_id, wallet_listener_url, head, timestamp },
            BuildEvent::Difficulty(difficulty),
        ) => next == spec_on_difficulty(key_id, wallet_listener_url, head, timestamp, difficulty),
        (
            BuildState::TransactionsRequested {
                key_id,
                wallet_listener_url,
                head,
                timestamp,
                difficulty,
            },
            BuildEvent::Transactions(offered),
        ) => is_priced(
            key_id,
            wallet_listener_url,
            head,
            timestamp,
            difficulty,
            spec_offered(offered),
            nonce,
            next,
        ),
        (
            BuildState::CoinbaseRequested { dest, draft, block_fees },
            BuildEvent::CoinbaseReply(reply),
        ) => is_answered(dest, draft, block_fees, reply, next),
        (
            BuildState::CoinbaseDecoding { draft, block_fees },
            BuildEvent::CoinbaseDecoded(decoded),
        ) => is_rewarded(draft, block_fees, decoded, nonce, next),
        (BuildState::RootsRequested { block_fees, stamp }, BuildEvent::Roots(roots)) => next
            == spec_on_roots(block_fees, roots),
        _ => is_unexpected(next),
    }
}

impl BuildState {
    /// `event` is what the attempt waits for in this state.
    pub open spec fn expects(self, event: BuildEvent) -> bool {
        match (self, event) {
            (BuildState::HeadRequested { .. }, BuildEvent::Head(_)) => true,
            (BuildState::DifficultyRequested { .. }, BuildEvent::Difficulty(_)) => true,
            (BuildState::TransactionsRequested { .. }, BuildEvent::Transactions(_)) => true,
            (BuildState::CoinbaseRequested { .. }, BuildEvent::CoinbaseReply(_)) => true,
            (BuildState::CoinbaseDecoding { .. }, BuildEvent::CoinbaseDecoded(_)) => true,
            (BuildState::RootsRequested { .. }, BuildEvent::Roots(_)) => true,
            _ => false,
        }
    }

    /// Starts an attempt to build a block whose coinbase is made with
    /// `key_id` by the wallet at `wallet_listener_url`: the head of the chain
    /// is asked for.
    pub fn start(key_id: Option<Identifier>, wallet_listener_url: Option<String>) -> (first: (
        BuildState,
        BuildAction,
    ))
        ensures
            first == (
                BuildState::HeadRequested { key_id, wallet_listener_url },
                BuildAction::FetchHead,
            ),
    {
        (BuildState::HeadRequested { key_id, wallet_listener_url }, BuildAction::FetchHead)
    }
}

/// Ends an attempt with `error`.
fn fail(error: BuildError) -> (next: (BuildState, BuildAction))
    ensures
        next == (BuildState::Finished, BuildAction::Done(Err(error))),
{
    (BuildState::Finished, BuildAction::Done(Err(error)))
}

/// Fixes the time of the block once the head of the chain is known, and asks
/// for the difficulty.
pub fn on_head(
    key_id: Option<Identifier>,
    wallet_listener_url: Option<String>,
    head: Result<ChainHead, ChainError>,
    now_sec: i64,
) -> (next: (BuildState, BuildAction))
    ensures
        next == spec_on_head(key_id, wallet_listener_url, head, now_sec),
{
    match head {
        Err(error) => fail(BuildError::Chain(error)),
        Ok(head) => {
            let timestamp = next_timestamp(now_sec, head.timestamp());
            let height = head.height() + 1;
            (
                BuildState::DifficultyRequested { key_id, wallet_listener_url, head, timestamp },
                BuildAction::FetchDifficulty { height },
            )
        },
    }
}

/// Takes the difficulty and asks the pool for transactions.
pub fn on_difficulty(
    key_id: Option<Identifier>,
    wallet_listener_url: Option<String>,
    head: ChainHead,
    timestamp: i64,
    difficulty: Result<NextDifficulty, ChainError>,
) -> (next: (BuildState, BuildAction))
    ensures
        next == spec_on_difficulty(key_id, wallet_listener_url, head, timestamp, difficulty),
{
    match difficulty {
        Err(error) => fail(BuildError::Chain(error)),
        Ok(difficulty) => (
            BuildState::TransactionsRequested {
                key_id,
                wallet_listener_url,
                head,
                timestamp,
                difficulty,
            },
            BuildAction::SelectTransactions,
        ),
    }
}

/// What assembling the block for `block_fees` comes to, for what came back.
/// What was not asked for, because an earlier answer ended the assembly, is
/// not looked at.
pub fn assembled(
    block_fees: BlockFees,
    stamp: HeaderStamp,
    chain_type_set: bool,
    fits: bool,
    refused: Option<String>,
    invalid: Option<String>,
    stamped: Option<StampedBlock>,
) -> (next: (BuildState, BuildAction))
    ensures
        is_assembled_with(
            next,
            block_fees,
            stamp,
            chain_type_set,
            fits,
            refused,
            invalid,
            stamped,
        ),
{
    if !chain_type_set {
        return fail(BuildError::General(String::from_str("no chain type is set")));
    }
    if !fits {
        return fail(
            BuildError::General(String::from_str("the total difficulty does not fit 64 bits")),
        );
    }
    match refused {
        Some(detail) => {
            return fail(BuildError::Core(detail));
        },
        None => {},
    }
    match invalid {
        Some(detail) => {
            return fail(BuildError::Core(detail));
        },
        None => {},
    }
    match stamped {
        Some(block) => (
            BuildState::RootsRequested { block_fees, stamp },
            BuildAction::SetRoots(block.into_block()),
        ),
        None => fail(BuildError::General(String::from_str("the time of the block has no date"))),
    }
}

/// Assembles the block from `draft` and its coinbase, checks it and writes
/// the time, the scaling and `nonce` into its header.
///
/// The block is made of what [`block_parts`](crate::node::requests::block_parts)
/// says and checked by `grin_core`,
/// once the process is known to have a chain type and the total difficulty to
/// fit 64 bits. Whatever comes back, what follows is what [`assembled`] makes
/// of it: a block that goes on to the chain carries the stamp of
/// [`spec_stamp`], the height after the head and the hash of the head, and
/// the fees are `block_fees`.
pub fn assemble(
    draft: Draft,
    output: grin_core::core::Output,
    kernel: grin_core::core::TxKernel,
    block_fees: BlockFees,
    nonce: u32,
) -> (next: (BuildState, BuildAction))
    ensures
        is_assembled(
            next,
            block_fees,
            spec_stamp(draft.timestamp, draft.difficulty, nonce),
            draft.head,
            draft.difficulty.difficulty,
            draft.txs.spec_txs(),
            output,
            kernel,
        ),
{
    let stamp = HeaderStamp {
        nonce: nonce as u64,
        secondary_scaling: draft.difficulty.secondary_scaling,
        timestamp: draft.timestamp,
    };
    let stamp_nonce = stamp.nonce;
    let stamp_scaling = stamp.secondary_scaling;
    let stamp_time = stamp.timestamp;
    draft.head.can_be_followed();
    let total = header_total_difficulty(draft.head.header());
    let fits = difficulty_num(draft.difficulty.difficulty) <= u64::MAX - total;
    let chain = match active_chain() {
        Some(chain) if fits => chain,
        known => {
            let chain_type_set = known.is_some();
            let next = assembled(block_fees, stamp, chain_type_set, fits, None, None, None);
            assert(is_assembled_with(
                next,
                block_fees,
                stamp,
                chain_type_set,
                spec_difficulty_fits(draft.head, draft.difficulty.difficulty),
                None,
                None,
                None,
            ));
            return next;
        },
    };
    let ghost head = draft.head;
    let ghost difficulty = draft.difficulty.difficulty;
    assert(spec_difficulty_fits(head, difficulty));
    let ghost txs = draft.txs.spec_txs();
    let parts = block_parts(draft, output, kernel);
    let raw = match block_from_reward(&chain, parts) {
        Ok(raw) => raw,
        Err(detail) => {
            let next = assembled(block_fees, stamp, true, true, Some(detail), None, None);
            assert(is_assembled_with(
                next,
                block_fees,
                stamp,
                true,
                spec_difficulty_fits(head, difficulty),
                Some(detail),
                None,
                None,
            ));
            return next;
        },
    };
    let valid = match validate_block(&chain, raw) {
        Ok(valid) => valid,
        Err(detail) => {
            let next = assembled(block_fees, stamp, true, true, None, Some(detail), None);
            assert(is_assembled_with(
                next,
                block_fees,
                stamp,
                true,
                spec_difficulty_fits(head, difficulty),
                None,
                Some(detail),
                None,
            ));
            return next;
        },
    };
    let stamped = stamp_header(valid, stamp_nonce, stamp_scaling, stamp_time);
    let next = assembled(block_fees, stamp, true, true, None, None, stamped);
    assert(stamped matches Some(b) ==> carries(b.spec_block(), stamp, head)
        && b.spec_parts().is_for(head, difficulty, txs, output, kernel));
    assert(is_assembled_with(
        next,
        block_fees,
        stamp,
        true,
        spec_difficulty_fits(head, difficulty),
        None,
        None,
        stamped,
    ));
    next
}

/// Takes the transactions that the pool offers, or none where the pool
/// fails, adds up their fees and gets the coinbase, or asks for it.
pub fn on_transactions(
    key_id: Option<Identifier>,
    wallet_listener_url: Option<String>,
    head: ChainHead,
    timestamp: i64,
    difficulty: NextDifficulty,
    offered: Result<Mineable, String>,
    nonce: u32,
) -> (next: (BuildState, BuildAction))
    ensures
        is_priced(
            key_id,
            wallet_listener_url,
            head,
            timestamp,
            difficulty,
            spec_offered(offered),
            nonce,
            next,
        ),
{
    let txs = match offered {
        Ok(txs) => txs,
        Err(_) => Mineable::empty(),
    };
    let fees = txs.total_fees();
    let block_fees = BlockFees { fees, height: head.height() + 1, key_id };
    let kept = block_fees.duplicate();
    let draft = Draft { head, timestamp, difficulty, txs };
    match get_coinbase(&wallet_listener_url, block_fees) {
        CoinbaseStep::Burnt(burnt) => {
            let next = match burnt {
                Ok((output, kernel, block_fees)) => assemble(
                    draft,
                    output,
                    kernel,
                    block_fees,
                    nonce,
                ),
                Err(error) => fail(error),
            };
            assert(is_built_from(
                next,
                burnt,
                spec_stamp(timestamp, difficulty, nonce),
                head,
                difficulty.difficulty,
                spec_offered(offered),
            ));
            next
        },
        CoinbaseStep::Ask(request) => (
            BuildState::CoinbaseRequested {
                dest: wallet_listener_url.unwrap(),
                draft,
                block_fees: kept,
            },
            BuildAction::RequestCoinbase(request),
        ),
    }
}

/// Reads the answer of the wallet at `dest`, and asks for the coinbase in it
/// to be decoded.
pub fn on_coinbase_reply(
    dest: String,
    draft: Draft,
    block_fees: BlockFees,
    reply: Result<String, WalletFailure>,
) -> (next: (BuildState, BuildAction))
    ensures
        is_answered(dest, draft, block_fees, reply, next),
{
    let result = read_coinbase_reply(dest.as_str(), reply);
    let next = match result {
        Ok(json) => (
            BuildState::CoinbaseDecoding { draft, block_fees },
            BuildAction::DecodeCoinbase { json },
        ),
        Err(error) => fail(error),
    };
    proof {
        if reply is Ok {
            let body = reply->Ok_0;
            let read = choose|read: Result<Reading, String>|
                is_reading_of(read, body@) && #[trigger] same_reply(
                    result,
                    spec_coinbase_reply(dest@, Ok(spec_envelope(read))),
                );
            assert(is_reading_of(read, body@) && is_read_answer(
                dest,
                draft,
                block_fees,
                read,
                next,
            ));
        }
    }
    next
}

/// Takes the coinbase that the wallet made and assembles the block.
pub fn on_coinbase_decoded(
    draft: Draft,
    block_fees: BlockFees,
    decoded: Result<CbData, String>,
    nonce: u32,
) -> (next: (BuildState, BuildAction))
    ensures
        is_rewarded(draft, block_fees, decoded, nonce, next),
{
    match coinbase_from_data(block_fees, decoded) {
        Ok((output, kernel, block_fees)) => assemble(draft, output, kernel, block_fees, nonce),
        Err(error) => fail(error),
    }
}

/// Ends the attempt once the chain has answered on the roots.
pub fn on_roots(block_fees: BlockFees, roots: Result<grin_core::core::Block, ChainError>) -> (next:
    (BuildState, BuildAction))
    ensures
        next == spec_on_roots(block_fees, roots),
{
    match roots {
        Ok(block) => (BuildState::Finished, BuildAction::Done(Ok((block, block_fees)))),
        Err(error) => fail(BuildError::Chain(error)),
    }
}

/// Ends an attempt that was told what it did not wait for.
fn unexpected() -> (next: (BuildState, BuildAction))
    ensures
        is_unexpected(next),
{
    fail(BuildError::General(String::from_str("unexpected event")))
}

/// What follows `event` in `state`, for a clock that shows `now_sec` and a
/// search for a proof of work that starts at `nonce`.
pub fn build_block_with(state: BuildState, event: BuildEvent, now_sec: i64, nonce: u32) -> (next: (
    BuildState,
    BuildAction,
))
    ensures
        spec_build_block(state, event, now_sec, nonce, next),
{
    match state {
        BuildState::HeadRequested { key_id, wallet_listener_url } => match event {
            BuildEvent::Head(head) => on_head(key_id, wallet_listener_url, head, now_sec),
            _ => unexpected(),
        },
        BuildState::DifficultyRequested { key_id, wallet_listener_url, head, timestamp } => {
            match event {
                BuildEvent::Difficulty(difficulty) => on_difficulty(
                    key_id,
                    wallet_listener_url,
                    head,
                    timestamp,
                    difficulty,
                ),
                _ => unexpected(),
            }
        },
        BuildState::TransactionsRequested {
            key_id,
            wallet_listener_url,
            head,
            timestamp,
            difficulty,
        } => match event {
            BuildEvent::Transactions(offered) => on_transactions(
                key_id,
                wallet_listener_url,
                head,
                timestamp,
                difficulty,
                offered,
                nonce,
            ),
            _ => unexpected(),
        },
        BuildState::CoinbaseRequested { dest, draft, block_fees } => match event {
            BuildEvent::CoinbaseReply(reply) => on_coinbase_reply(dest, draft, block_fees, reply),
            _ => unexpected(),
        },
        BuildState::CoinbaseDecoding { draft, block_fees } => match event {
            BuildEvent::CoinbaseDecoded(decoded) => on_coinbase_decoded(
                draft,
                block_fees,
                decoded,
                nonce,
            ),
            _ => unexpected(),
        },
        BuildState::RootsRequested { block_fees, stamp } => match event {
            BuildEvent::Roots(roots) => on_roots(block_fees, roots),
            _ => unexpected(),
        },
        BuildState::Finished => unexpected(),
    }
}

/// Builds a new block with the head of the chain as its predecessor and the
/// transactions of the pool: decides what follows `event` in `state`.
///
/// The caller starts with [`BuildState::start`], does what each action says
/// and reports back, until the action is [`BuildAction::Done`]. The clock is
/// read when the head of the chain arrives, and the nonce is drawn when the
/// coinbase is there and the block is assembled; whatever they give, the
/// step is one that [`spec_build_block`] allows.
pub fn build_block(state: BuildState, event: BuildEvent) -> (next: (BuildState, BuildAction))
    ensures
        exists|now_sec: i64, nonce: u32| spec_build_block(state, event, now_sec, nonce, next),
{
    let now_sec = match (&state, &event) {
        (BuildState::HeadRequested { .. }, BuildEvent::Head(Ok(_))) => clock_seconds(),
        _ => 0,
    };
    let nonce = match (&state, &event) {
        (
            BuildState::TransactionsRequested { wallet_listener_url: None, .. },
            BuildEvent::Transactions(_),
        ) => random_nonce(),
        (BuildState::CoinbaseDecoding { .. }, BuildEvent::CoinbaseDecoded(Ok(_))) => random_nonce(),
        _ => 0,
    };
    build_block_with(state, event, now_sec, nonce)
}

/// The time that is fixed when the head of the chain arrives is later than
/// the time of the head and never earlier than the clock, and the difficulty
/// is asked for the height after the head.
pub proof fn lemma_head_dates_block(
    key_id: Option<Identifier>,
    wallet_listener_url: Option<String>,
    head: ChainHead,
    now_sec: i64,
)
    requires
        head.has_successor(),
    ensures
        ({
            let next = spec_on_head(key_id, wallet_listener_url, Ok(head), now_sec);
            &&& next.0 matches BuildState::DifficultyRequested { timestamp, .. }
            &&& timestamp >= head.spec_timestamp() + 1
            &&& timestamp >= now_sec
            &&& next.1 == (BuildAction::FetchDifficulty { height: (head.spec_height() + 1) as u64 })
        }),
{
    lemma_timestamp_after_head(now_sec as int, head.spec_timestamp() as int);
}

/// A block that goes to the chain carries, in its header, the time that was
/// fixed when the head arrived: the later of the clock and one second after
/// the head, and so a time later than the head's. It also carries the height
/// after the head, the hash of the head, the scaling of the difficulty and
/// the nonce. This holds of a reward that was burnt and of one that the
/// wallet made.
pub proof fn lemma_stamp_is_after_head(
    head: ChainHead,
    now_sec: i64,
    difficulty: NextDifficulty,
    block_fees: BlockFees,
    txs: Seq<MineableTx>,
    output: grin_core::core::Output,
    kernel: grin_core::core::TxKernel,
    nonce: u32,
    next: (BuildState, BuildAction),
)
    requires
        head.has_successor(),
        next.1 is SetRoots,
        is_assembled(
            next,
            block_fees,
            spec_stamp(
                spec_next_timestamp(now_sec as int, head.spec_timestamp() as int) as i64,
                difficulty,
                nonce,
            ),
            head,
            difficulty.difficulty,
            txs,
            output,
            kernel,
        ),
    ensures
        next.0 matches BuildState::RootsRequested { stamp, .. } && stamp.timestamp
            >= head.spec_timestamp() + 1 && stamp.timestamp > head.spec_timestamp(),
        next.1 matches BuildAction::SetRoots(block) && spec_block_timestamp(block)
            == spec_next_timestamp(now_sec as int, head.spec_timestamp() as int)
            && spec_block_timestamp(block) > head.spec_timestamp() && spec_block_height(block)
            == head.spec_height() + 1 && spec_block_prev_hash(block) == spec_header_hash(
            head.spec_header(),
        ) && spec_block_scaling(block) == difficulty.secondary_scaling && spec_block_nonce(block)
            == nonce,
{
    lemma_timestamp_after_head(now_sec as int, head.spec_timestamp() as int);
}

/// The fees of the block are the fees of its transactions, added up, and
/// none for a block without transactions; its height is the height after the
/// head. The wallet is asked for a coinbase for exactly these fees.
pub proof fn lemma_fees_are_conserved(
    key_id: Option<Identifier>,
    dest: String,
    head: ChainHead,
    timestamp: i64,
    difficulty: NextDifficulty,
    txs: Seq<MineableTx>,
    nonce: u32,
    next: (BuildState, BuildAction),
)
    requires
        spec_total_fees(txs) <= u64::MAX,
        is_priced(key_id, Some(dest), head, timestamp, difficulty, txs, nonce, next),
    ensures
        next.0 matches BuildState::CoinbaseRequested { block_fees, .. } && block_fees.fees
            == spec_total_fees(txs) && (txs.len() == 0 ==> block_fees.fees == 0),
        next.1 matches BuildAction::RequestCoinbase(request) && request.block_fees.fees
            == spec_total_fees(txs) && request.block_fees.key_id == key_id,
{
    lemma_total_fees_nonnegative(txs);
}

/// Without a wallet the fees of the block that goes to the chain are the
/// fees of its transactions, added up, and the block has the height that the
/// fees name.
pub proof fn lemma_fees_are_conserved_when_burnt(
    key_id: Option<Identifier>,
    head: ChainHead,
    timestamp: i64,
    difficulty: NextDifficulty,
    txs: Seq<MineableTx>,
    nonce: u32,
    next: (BuildState, BuildAction),
)
    requires
        head.has_successor(),
        spec_total_fees(txs) <= u64::MAX,
        next.1 is SetRoots,
        is_priced(key_id, None, head, timestamp, difficulty, txs, nonce, next),
    ensures
        next.0 matches BuildState::RootsRequested { block_fees, .. } && block_fees.fees
            == spec_total_fees(txs) && block_fees.key_id == key_id && block_fees.height
            == head.spec_height() + 1,
        next.1 matches BuildAction::SetRoots(block) && spec_block_height(block)
            == head.spec_height() + 1 && spec_block_timestamp(block) == timestamp,
{
    lemma_total_fees_nonnegative(txs);
}

/// A pool that fails does not end the attempt: the attempt goes on as it
/// does for a pool that offers nothing, with a block that has no
/// transactions and no fees.
pub proof fn lemma_pool_failure_builds_empty_block(
    key_id: Option<Identifier>,
    wallet_listener_url: Option<String>,
    head: ChainHead,
    timestamp: i64,
    difficulty: NextDifficulty,
    failure: String,
    now_sec: i64,
    nonce: u32,
    next: (BuildState, BuildAction),
)
    requires
        spec_build_block(
            BuildState::TransactionsRequested {
                key_id,
                wallet_listener_url,
                head,
                timestamp,
                difficulty,
            },
            BuildEvent::Transactions(Err(failure)),
            now_sec,
            nonce,
            next,
        ),
    ensures
        is_priced(
            key_id,
            wallet_listener_url,
            head,
            timestamp,
            difficulty,
            Seq::empty(),
            nonce,
            next,
        ),
        spec_block_fees(key_id, head, Seq::empty()).fees == 0,
        wallet_listener_url is Some ==> (next.0 matches BuildState::CoinbaseRequested {
            draft,
            block_fees,
            ..
        } && draft.txs.spec_txs().len() == 0 && block_fees.fees == 0),
        next.1 is SetRoots ==> (next.0 matches BuildState::RootsRequested { block_fees, .. }
            && block_fees.fees == 0),
{
}

/// Without a wallet nobody is asked for a coinbase: what follows the
/// transactions is the block on its way to the chain, or the end of the
/// attempt, and never a request to a wallet.
pub proof fn lemma_burn_asks_nobody(
    key_id: Option<Identifier>,
    head: ChainHead,
    timestamp: i64,
    difficulty: NextDifficulty,
    offered: Result<Mineable, String>,
    now_sec: i64,
    nonce: u32,
    next: (BuildState, BuildAction),
)
    requires
        spec_build_block(
            BuildState::TransactionsRequested {
                key_id,
                wallet_listener_url: None,
                head,
                timestamp,
                difficulty,
            },
            BuildEvent::Transactions(offered),
            now_sec,
            nonce,
            next,
        ),
    ensures
        next.1 is SetRoots || next.1 is Done,
        next.0 is RootsRequested || next.0 is Finished,
        !(next.1 is RequestCoinbase),
        !(next.1 is DecodeCoinbase),
{
}

/// The coinbase of a wallet changes nothing in the fees of the block but the
/// key, which becomes the one that the wallet used.
pub proof fn lemma_wallet_key_overrides(
    draft: Draft,
    block_fees: BlockFees,
    data: CbData,
    nonce: u32,
    next: (BuildState, BuildAction),
)
    requires
        next.1 is SetRoots,
        is_rewarded(draft, block_fees, Ok(data), nonce, next),
    ensures
        next.0 matches BuildState::RootsRequested { block_fees: final_fees, stamp }
            && final_fees.fees == block_fees.fees && final_fees.height == block_fees.height
            && final_fees.key_id == data.key_id && stamp.timestamp == draft.timestamp,
{
}

/// A duplicate commitment that the chain reports when it sets the roots ends
/// the attempt as a duplicate commitment, so that the next attempt is made
/// without a key; any other failure of the chain ends it as a failure that is
/// none, after which the caller's key is tried again.
pub proof fn lemma_duplicate_commitment_surfaces(
    block_fees: BlockFees,
    error: ChainError,
    key_id: Option<Identifier>,
)
    ensures
        has_failed(spec_on_roots(block_fees, Err(error))),
        failure_of(spec_on_roots(block_fees, Err(error))) == BuildError::Chain(error),
        failure_of(spec_on_roots(block_fees, Err(error))).is_duplicate_commitment() <==> error
            is DuplicateCommitment,
        error is DuplicateCommitment ==> spec_retry_key(
            key_id,
            failure_of(spec_on_roots(block_fees, Err(error))),
        ) is None,
        !(error is DuplicateCommitment) ==> spec_retry_key(
            key_id,
            failure_of(spec_on_roots(block_fees, Err(error))),
        ) == key_id,
{
}

/// A block is handed out only when the chain has set its roots: the attempt
/// ends with a block if and only if it waited for the roots and the chain
/// gave the block back, and the block and the fees are then the ones that
/// waited.
pub proof fn lemma_block_only_after_roots(
    state: BuildState,
    event: BuildEvent,
    now_sec: i64,
    nonce: u32,
    next: (BuildState, BuildAction),
)
    requires
        spec_build_block(state, event, now_sec, nonce, next),
    ensures
        next.1 matches BuildAction::Done(Ok(built)) <==> (state is RootsRequested
            && event matches BuildEvent::Roots(Ok(_))),
        next.1 matches BuildAction::Done(Ok(built)) ==> (state matches BuildState::RootsRequested {
            block_fees,
            ..
        } && event matches BuildEvent::Roots(Ok(block)) && built == (block, block_fees)),
        next.1 is SetRoots ==> (state is TransactionsRequested || state is CoinbaseDecoding),
        next.1 is Done ==> next.0 is Finished,
{
}

/// An event that the attempt does not wait for ends it, whatever the event
/// is.
pub proof fn lemma_unexpected_event_ends_attempt(
    state: BuildState,
    event: BuildEvent,
    now_sec: i64,
    nonce: u32,
    next: (BuildState, BuildAction),
)
    requires
        !state.expects(event),
    ensures
        spec_build_block(state, event, now_sec, nonce, next) <==> is_unexpected(next),
{
}

/// An answer of the wallet leads to a decoding or ends the attempt with a
/// failure to talk to the wallet, and to nothing else.
pub proof fn lemma_answer_is_decoded_or_refused(
    dest: String,
    draft: Draft,
    block_fees: BlockFees,
    body: String,
    next: (BuildState, BuildAction),
)
    requires
        is_answered(dest, draft, block_fees, Ok(body), next),
    ensures
        if next.1 is DecodeCoinbase {
            next.0 == (BuildState::CoinbaseDecoding { draft, block_fees })
        } else {
            has_failed(next) && failure_of(next) is WalletComm
        },
{
}

/// The key that the wallet is asked for in the attempt that follows one
/// that failed with `error`, for a caller who asked for the key and the
/// wallet of `request`, once the delay is over and the stop signal was read
/// and not set.
pub open spec fn spec_key_asked_after(request: BlockRequest, error: BuildError) -> Option<
    Option<Identifier>,
> {
    let failed = spec_get_block(RetryState::Building { request }, RetryEvent::Built(Err(error)));
    let checking = if failed.1 is Delay {
        spec_get_block(failed.0, RetryEvent::Delayed).0
    } else {
        failed.0
    };
    match spec_get_block(checking, RetryEvent::StopChecked(false)).1 {
        RetryAction::Build { key_id, .. } => Some(key_id),
        _ => None,
    }
}

/// When the chain reports a duplicate commitment as it sets the roots, the
/// wallet is asked for a coinbase without a key in the next attempt, whatever
/// key the caller asked for; after a failure to talk to the wallet it is
/// asked for the caller's key again.
pub proof fn lemma_key_asked_after_failure(
    request: BlockRequest,
    block_fees: BlockFees,
    info: String,
    report: String,
    dest: String,
    head: ChainHead,
    timestamp: i64,
    difficulty: NextDifficulty,
    txs: Seq<MineableTx>,
    nonce: u32,
    next: (BuildState, BuildAction),
)
    ensures
        spec_key_asked_after(
            request,
            failure_of(spec_on_roots(block_fees, Err(ChainError::DuplicateCommitment(info)))),
        ) == Some(None::<Identifier>),
        spec_key_asked_after(request, BuildError::WalletComm(report)) == Some(request.key_id),
        is_priced(None, Some(dest), head, timestamp, difficulty, txs, nonce, next) ==> (
        next.1 matches BuildAction::RequestCoinbase(asked) && asked.block_fees.key_id is None),
        is_priced(request.key_id, Some(dest), head, timestamp, difficulty, txs, nonce, next) ==> (
        next.1 matches BuildAction::RequestCoinbase(asked) && asked.block_fees.key_id
            == request.key_id),
{
}

} // verus!
