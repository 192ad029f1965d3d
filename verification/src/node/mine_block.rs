//! Makes sure that a block for mining is built: one attempt after the other,
//! until a block is there or the builder is stopped.
//!
//! The attempts themselves, the delays and the stop signal are the caller's
//! business. [`get_block`] decides what follows each of them. This file also
//! holds the time of a block, which every attempt computes.

use vstd::prelude::*;
use grin_keychain::Identifier;
use crate::node::outside::clone_identifier;
use crate::node::types::{BuildError, ChainError};

verus! {

/// How long the builder waits before it tries again with a fresh key, in
/// milliseconds.
pub const KEY_RETRY_DELAY_MS: u64 = 100;

/// How long the builder waits before it asks the wallet again, in
/// milliseconds.
pub const WALLET_RETRY_DELAY_MS: u64 = 5000;

/// Fees in a block, from which the amount of the coinbase follows.
#[derive(Debug)]
pub struct BlockFees {
    /// The fees of the transactions in the block, added up.
    pub fees: u64,
    /// The height of the block.
    pub height: u64,
    /// The key that the coinbase is to be made with. `None` leaves the choice
    /// to whoever makes the coinbase.
    pub key_id: Option<Identifier>,
}

impl BlockFees {
    /// The key identifier, copied.
    pub fn key_id(&self) -> (key_id: Option<Identifier>)
        ensures
            key_id == self.key_id,
    {
        copy_key_id(&self.key_id)
    }

    /// A copy of the fees.
    pub fn duplicate(&self) -> (copy: BlockFees)
        ensures
            copy == *self,
    {
        BlockFees { fees: self.fees, height: self.height, key_id: copy_key_id(&self.key_id) }
    }
}

/// What a wallet answers when it is asked for a coinbase.
#[derive(Debug)]
pub struct CbData {
    /// The coinbase output.
    pub output: grin_core::core::Output,
    /// The coinbase kernel.
    pub kernel: grin_core::core::TxKernel,
    /// The key that the wallet made the output with.
    pub key_id: Option<Identifier>,
}

/// A copy of a key identifier that may be absent.
pub fn copy_key_id(key_id: &Option<Identifier>) -> (copy: Option<Identifier>)
    ensures
        copy == *key_id,
{
    match key_id {
        Some(id) => Some(clone_identifier(id)),
        None => None,
    }
}

/// A copy of a text that may be absent.
pub fn copy_text(text: &Option<String>) -> (copy: Option<String>)
    ensures
        copy == *text,
{
    match text {
        Some(t) => Some(t.clone()),
        None => None,
    }
}

/// The time of a block built at `now_sec` on a head of time `head_sec`: the
/// wall clock, or one second after the head where the clock is not ahead of
/// it.
pub open spec fn spec_next_timestamp(now_sec: int, head_sec: int) -> int {
    if now_sec <= head_sec {
        head_sec + 1
    } else {
        now_sec
    }
}

/// The time of a block built at `now_sec` on a head of time `head_sec`, both
/// in seconds since the Unix epoch.
pub fn next_timestamp(now_sec: i64, head_sec: i64) -> (timestamp: i64)
    requires
        head_sec < i64::MAX,
    ensures
        timestamp == spec_next_timestamp(now_sec as int, head_sec as int),
{
    if now_sec <= head_sec {
        head_sec + 1
    } else {
        now_sec
    }
}

/// The time of a block is later than the time of the head it is built on, by
/// a second at least, and never earlier than the clock.
pub proof fn lemma_timestamp_after_head(now_sec: int, head_sec: int)
    ensures
        spec_next_timestamp(now_sec, head_sec) >= head_sec + 1,
        spec_next_timestamp(now_sec, head_sec) > head_sec,
        spec_next_timestamp(now_sec, head_sec) >= now_sec,
        spec_next_timestamp(now_sec, head_sec) == now_sec || spec_next_timestamp(
            now_sec,
            head_sec,
        ) == head_sec + 1,
{
}

/// What the caller asks the builder for.
pub struct BlockRequest {
    /// The key to make the coinbase with, if the caller has one in mind.
    pub key_id: Option<Identifier>,
    /// Where the wallet listens. Without it the reward is burnt.
    pub wallet_listener_url: Option<String>,
}

/// The delay after an attempt that failed with `error`, in milliseconds.
pub open spec fn spec_retry_delay(error: BuildError) -> u64 {
    if error.is_duplicate_commitment() {
        KEY_RETRY_DELAY_MS
    } else if error.is_wallet_comm() {
        WALLET_RETRY_DELAY_MS
    } else {
        0
    }
}

/// The key of the attempt that follows one that failed with `error`, for a
/// caller who asked for `key_id`: none after a duplicate commitment, so that
/// the coinbase is made with a fresh key, and the caller's key after any
/// other failure.
pub open spec fn spec_retry_key(key_id: Option<Identifier>, error: BuildError) -> Option<
    Identifier,
> {
    if error.is_duplicate_commitment() {
        None
    } else {
        key_id
    }
}

/// Where the builder stands between its attempts.
pub enum RetryState {
    /// An attempt is under way.
    Building { request: BlockRequest },
    /// The last attempt failed, and the delay before the next one runs.
    Delaying { request: BlockRequest, next_key_id: Option<Identifier> },
    /// The last attempt failed, and the stop signal is being read.
    CheckingStop { request: BlockRequest, next_key_id: Option<Identifier> },
    /// A block was returned, or the builder was stopped.
    Finished,
}

/// What the caller reports to the builder.
pub enum RetryEvent {
    /// An attempt ended.
    Built(Result<(grin_core::core::Block, BlockFees), BuildError>),
    /// The delay is over.
    Delayed,
    /// The stop signal was read: `true` when the builder is to stop.
    StopChecked(bool),
}

/// What the builder asks its caller to do.
pub enum RetryAction {
    /// Run one attempt with this key and this wallet.
    Build { key_id: Option<Identifier>, wallet_listener_url: Option<String> },
    /// Let this many milliseconds pass.
    Delay { millis: u64 },
    /// Read the stop signal.
    CheckStop,
    /// Hand this to whoever asked for a block; `None` when the builder was
    /// stopped.
    Return(Option<(grin_core::core::Block, BlockFees)>),
}

impl RetryState {
    /// The request that the builder serves, while it serves one.
    pub open spec fn request(self) -> Option<BlockRequest> {
        match self {
            RetryState::Building { request } => Some(request),
            RetryState::Delaying { request, .. } => Some(request),
            RetryState::CheckingStop { request, .. } => Some(request),
            RetryState::Finished => None,
        }
    }

    /// The key of the next attempt, while the builder is between two
    /// attempts.
    pub open spec fn next_key_id(self) -> Option<Option<Identifier>> {
        match self {
            RetryState::Delaying { next_key_id, .. } => Some(next_key_id),
            RetryState::CheckingStop { next_key_id, .. } => Some(next_key_id),
            _ => None,
        }
    }

    /// `event` is what the builder waits for in this state.
    pub open spec fn expects(self, event: RetryEvent) -> bool {
        match (self, event) {
            (RetryState::Building { .. }, RetryEvent::Built(_)) => true,
            (RetryState::Delaying { .. }, RetryEvent::Delayed) => true,
            (RetryState::CheckingStop { .. }, RetryEvent::StopChecked(_)) => true,
            _ => false,
        }
    }

    /// The state and the first action of a builder that serves `request`: an
    /// attempt with the caller's key.
    pub open spec fn spec_start(request: BlockRequest) -> (RetryState, RetryAction) {
        (
            RetryState::Building { request },
            RetryAction::Build {
                key_id: request.key_id,
                wallet_listener_url: request.wallet_listener_url,
            },
        )
    }

    /// Starts a builder for a caller who asks for a block with `key_id` and
    /// the wallet at `wallet_listener_url`.
    pub fn start(key_id: Option<Identifier>, wallet_listener_url: Option<String>) -> (first: (
        RetryState,
        RetryAction,
    ))
        ensures
            first == RetryState::spec_start((BlockRequest { key_id, wallet_listener_url })),
    {
        let action = RetryAction::Build {
            key_id: copy_key_id(&key_id),
            wallet_listener_url: copy_text(&wallet_listener_url),
        };
        (RetryState::Building { request: BlockRequest { key_id, wallet_listener_url } }, action)
    }
}

/// What follows `event` in `state`: the next state and what the caller is to
/// do.
///
/// A block that was built is returned. After a failed attempt the builder
/// waits as long as the failure calls for, reads the stop signal, and then
/// either stops or tries again, with the caller's key or, after a duplicate
/// commitment, with none. An event that the builder does not wait for ends
/// the run without a block.
pub open spec fn spec_get_block(state: RetryState, event: RetryEvent) -> (RetryState, RetryAction) {
    match (state, event) {
        (RetryState::Building { request }, RetryEvent::Built(Ok(built))) => (
            RetryState::Finished,
            RetryAction::Return(Some(built)),
        ),
        (RetryState::Building { request }, RetryEvent::Built(Err(error))) => {
            let next_key_id = spec_retry_key(request.key_id, error);
            if spec_retry_delay(error) > 0 {
                (
                    RetryState::Delaying { request, next_key_id },
                    RetryAction::Delay { millis: spec_retry_delay(error) },
                )
            } else {
                (RetryState::CheckingStop { request, next_key_id }, RetryAction::CheckStop)
            }
        },
        (RetryState::Delaying { request, next_key_id }, RetryEvent::Delayed) => (
            RetryState::CheckingStop { request, next_key_id },
            RetryAction::CheckStop,
        ),
        (RetryState::CheckingStop { request, next_key_id }, RetryEvent::StopChecked(stopped)) => {
            if stopped {
                (RetryState::Finished, RetryAction::Return(None))
            } else {
                (
                    RetryState::Building { request },
                    RetryAction::Build {
                        key_id: next_key_id,
                        wallet_listener_url: request.wallet_listener_url,
                    },
                )
            }
        },
        _ => (RetryState::Finished, RetryAction::Return(None)),
    }
}

/// The delay after an attempt that failed with `error`, in milliseconds.
pub fn retry_delay(error: &BuildError) -> (millis: u64)
    ensures
        millis == spec_retry_delay(*error),
{
    match error {
        BuildError::Chain(ChainError::DuplicateCommitment(_)) => KEY_RETRY_DELAY_MS,
        BuildError::WalletComm(_) => WALLET_RETRY_DELAY_MS,
        _ => 0,
    }
}

/// The key of the attempt that follows one that failed with `error`, for a
/// caller who asked for `key_id`.
pub fn retry_key(key_id: &Option<Identifier>, error: &BuildError) -> (next_key_id: Option<
    Identifier,
>)
    ensures
        next_key_id == spec_retry_key(*key_id, *error),
{
    match error {
        BuildError::Chain(ChainError::DuplicateCommitment(_)) => None,
        _ => copy_key_id(key_id),
    }
}

/// Makes sure that a block for mining is built and returned: decides what
/// follows `event` in `state`.
///
/// The caller starts with [`RetryState::start`], does what each action says
/// and reports back, until the action is [`RetryAction::Return`].
pub fn get_block(state: RetryState, event: RetryEvent) -> (next: (RetryState, RetryAction))
    ensures
        next == spec_get_block(state, event),
{
    match state {
        RetryState::Building { request } => match event {
            RetryEvent::Built(Ok(built)) => (RetryState::Finished, RetryAction::Return(Some(built))),
            RetryEvent::Built(Err(error)) => {
                let next_key_id = retry_key(&request.key_id, &error);
                let millis = retry_delay(&error);
                if millis > 0 {
                    (RetryState::Delaying { request, next_key_id }, RetryAction::Delay { millis })
                } else {
                    (RetryState::CheckingStop { request, next_key_id }, RetryAction::CheckStop)
                }
            },
            _ => (RetryState::Finished, RetryAction::Return(None)),
        },
        RetryState::Delaying { request, next_key_id } => match event {
            RetryEvent::Delayed => (
                RetryState::CheckingStop { request, next_key_id },
                RetryAction::CheckStop,
            ),
            _ => (RetryState::Finished, RetryAction::Return(None)),
        },
        RetryState::CheckingStop { request, next_key_id } => match event {
            RetryEvent::StopChecked(stopped) => {
                if stopped {
                    (RetryState::Finished, RetryAction::Return(None))
                } else {
                    let wallet_listener_url = copy_text(&request.wallet_listener_url);
                    (
                        RetryState::Building { request },
                        RetryAction::Build { key_id: next_key_id, wallet_listener_url },
                    )
                }
            },
            _ => (RetryState::Finished, RetryAction::Return(None)),
        },
        RetryState::Finished => (RetryState::Finished, RetryAction::Return(None)),
    }
}

/// After a duplicate commitment the next attempt is made without a key,
/// whatever key the caller asked for: the builder waits
/// [`KEY_RETRY_DELAY_MS`], reads the stop signal and, unless stopped, asks
/// for an attempt whose key is `None`.
pub proof fn lemma_duplicate_commitment_clears_key(request: BlockRequest, info: String)
    ensures
        ({
            let error = BuildError::Chain(ChainError::DuplicateCommitment(info));
            let waiting = RetryState::Delaying { request, next_key_id: None };
            let checking = RetryState::CheckingStop { request, next_key_id: None };
            &&& spec_get_block(RetryState::Building { request }, RetryEvent::Built(Err(error)))
                == (waiting, RetryAction::Delay { millis: KEY_RETRY_DELAY_MS })
            &&& spec_get_block(waiting, RetryEvent::Delayed) == (checking, RetryAction::CheckStop)
            &&& spec_get_block(checking, RetryEvent::StopChecked(false)) == (
                RetryState::Building { request },
                RetryAction::Build {
                    key_id: None,
                    wallet_listener_url: request.wallet_listener_url,
                },
            )
        }),
{
}

/// After a failure to talk to the wallet the next attempt is made with the
/// key that the caller asked for: the builder waits
/// [`WALLET_RETRY_DELAY_MS`], reads the stop signal and, unless stopped, asks
/// for an attempt with the caller's key and wallet.
pub proof fn lemma_wallet_failure_keeps_key(request: BlockRequest, report: String)
    ensures
        ({
            let error = BuildError::WalletComm(report);
            let waiting = RetryState::Delaying { request, next_key_id: request.key_id };
            let checking = RetryState::CheckingStop { request, next_key_id: request.key_id };
            &&& spec_get_block(RetryState::Building { request }, RetryEvent::Built(Err(error)))
                == (waiting, RetryAction::Delay { millis: WALLET_RETRY_DELAY_MS })
            &&& spec_get_block(waiting, RetryEvent::Delayed) == (checking, RetryAction::CheckStop)
            &&& spec_get_block(checking, RetryEvent::StopChecked(false)) == (
                RetryState::Building { request },
                RetryAction::Build {
                    key_id: request.key_id,
                    wallet_listener_url: request.wallet_listener_url,
                },
            )
        }),
{
}

/// After any other failure the builder does not wait: it reads the stop
/// signal at once and, unless stopped, tries again with the caller's key.
pub proof fn lemma_other_failure_retries_at_once(request: BlockRequest, error: BuildError)
    requires
        !error.is_duplicate_commitment(),
        !error.is_wallet_comm(),
    ensures
        ({
            let checking = RetryState::CheckingStop { request, next_key_id: request.key_id };
            &&& spec_get_block(RetryState::Building { request }, RetryEvent::Built(Err(error)))
                == (checking, RetryAction::CheckStop)
            &&& spec_get_block(checking, RetryEvent::StopChecked(false)) == (
                RetryState::Building { request },
                RetryAction::Build {
                    key_id: request.key_id,
                    wallet_listener_url: request.wallet_listener_url,
                },
            )
        }),
{
}

/// The stop signal ends the retries: once an attempt has failed, whatever the
/// failure, no further attempt is asked for before the stop signal is read,
/// and a stop signal that is set ends the run without a block.
pub proof fn lemma_stop_halts_retries(request: BlockRequest, error: BuildError)
    ensures
        ({
            let (failed, first) = spec_get_block(
                RetryState::Building { request },
                RetryEvent::Built(Err(error)),
            );
            let checking = if first is Delay {
                spec_get_block(failed, RetryEvent::Delayed).0
            } else {
                failed
            };
            &&& first is Delay || first is CheckStop
            &&& first is Delay ==> spec_get_block(failed, RetryEvent::Delayed).1 is CheckStop
            &&& checking is CheckingStop
            &&& spec_get_block(checking, RetryEvent::StopChecked(true)) == (
                RetryState::Finished,
                RetryAction::Return(None),
            )
        }),
{
}

/// The builder never changes what the caller asked for: as long as it
/// serves a request, it is the request it started with.
pub proof fn lemma_request_is_kept(state: RetryState, event: RetryEvent)
    ensures
        spec_get_block(state, event).0.request() is Some ==> spec_get_block(
            state,
            event,
        ).0.request() == state.request(),
{
}

/// The key of the next attempt departs from the caller's key only after a
/// duplicate commitment.
pub proof fn lemma_key_is_kept(request: BlockRequest, error: BuildError)
    requires
        !error.is_duplicate_commitment(),
    ensures
        spec_get_block(
            RetryState::Building { request },
            RetryEvent::Built(Err(error)),
        ).0.next_key_id() == Some(request.key_id),
{
}

/// A block that was built is returned as it is, fees and all, and ends the
/// run.
pub proof fn lemma_built_block_is_returned(
    request: BlockRequest,
    built: (grin_core::core::Block, BlockFees),
)
    ensures
        spec_get_block(RetryState::Building { request }, RetryEvent::Built(Ok(built))) == (
            RetryState::Finished,
            RetryAction::Return(Some(built)),
        ),
{
}

/// An event that the builder does not wait for ends the run without a
/// block.
pub proof fn lemma_unexpected_event_ends_run(state: RetryState, event: RetryEvent)
    requires
        !state.expects(event),
    ensures
        spec_get_block(state, event) == (RetryState::Finished, RetryAction::Return(None)),
{
}

} // verus!
