use grim::node::build_block::{build_block, BuildAction, BuildEvent, BuildState};
use grim::node::coinbase::WalletFailure;
use grim::node::fees::{Mineable, MineableTx};
use grim::node::mine_block::{get_block, BlockFees, CbData, RetryAction, RetryEvent, RetryState};
use grim::node::types::{BuildError, ChainError, ChainHead, NextDifficulty};
use grin_core::global::{init_global_chain_type, set_local_chain_type, ChainTypes};
use grin_core::libtx::{reward, ProofBuilder};
use grin_core::pow::Difficulty;
use grin_keychain::{ExtKeychain, Identifier, Keychain};

/// A chain that stands at its first block and answers the requests to set
/// roots as it was told to.
struct Chain {
    head_fails: bool,
    roots: Vec<Option<ChainError>>,
    roots_asked: usize,
    heads_asked: usize,
}

/// A pool with nothing in it, or one that fails.
struct Pool {
    fails: bool,
}

/// A wallet that answers each request as it was told to, and remembers the
/// keys it was asked for.
struct Wallet {
    reachable: Vec<bool>,
    asked: Vec<Option<Identifier>>,
    key: Identifier,
}

struct Run {
    returned: Option<(grin_core::core::Block, BlockFees)>,
    attempts: usize,
    delays: Vec<u64>,
}

fn use_test_chain() {
    init_global_chain_type(ChainTypes::AutomatedTesting);
    set_local_chain_type(ChainTypes::AutomatedTesting);
}

fn caller_key() -> Identifier {
    ExtKeychain::derive_key_id(3, 1, 2, 3, 0)
}

fn wallet_key() -> Identifier {
    ExtKeychain::derive_key_id(3, 8, 8, 8, 0)
}

fn url() -> Option<String> {
    Some("http://127.0.0.1:3415".to_string())
}

fn chain(roots: Vec<Option<ChainError>>) -> Chain {
    Chain { head_fails: false, roots, roots_asked: 0, heads_asked: 0 }
}

fn wallet(reachable: Vec<bool>) -> Wallet {
    Wallet { reachable, asked: Vec::new(), key: wallet_key() }
}

fn duplicate() -> Option<ChainError> {
    Some(ChainError::DuplicateCommitment("08aa".to_string()))
}

impl Wallet {
    fn answer(&mut self, fees: &BlockFees) -> Result<String, WalletFailure> {
        let reachable = self.reachable.get(self.asked.len()).copied().unwrap_or(true);
        self.asked.push(fees.key_id.clone());
        if !reachable {
            return Err(WalletFailure::NotReached("connection refused".to_string()));
        }
        let keychain = ExtKeychain::from_random_seed(false).unwrap();
        let builder = ProofBuilder::new(&keychain);
        let key = fees.key_id.clone().unwrap_or(self.key.clone());
        let (output, kernel) = reward::output(&keychain, &builder, &key, fees.fees, false).unwrap();
        Ok(format!(
            "{{\"id\":1,\"jsonrpc\":\"2.0\",\"result\":{{\"Ok\":{{\"output\":{},\"kernel\":{},\"key_id\":\"{}\"}}}}}}",
            serde_json::to_string(&output).unwrap(),
            serde_json::to_string(&kernel).unwrap(),
            key
        ))
    }
}

fn decode(json: &str) -> Result<CbData, String> {
    let value: serde_json::Value = serde_json::from_str(json).map_err(|e| e.to_string())?;
    let output = serde_json::from_value(value["output"].clone()).map_err(|e| e.to_string())?;
    let kernel = serde_json::from_value(value["kernel"].clone()).map_err(|e| e.to_string())?;
    let key_id = serde_json::from_value(value["key_id"].clone()).map_err(|e| e.to_string())?;
    Ok(CbData { output, kernel, key_id })
}

/// One attempt against the three collaborators.
fn attempt(
    chain: &mut Chain,
    pool: &Pool,
    wallet: &mut Wallet,
    key_id: Option<Identifier>,
    wallet_listener_url: Option<String>,
) -> Result<(grin_core::core::Block, BlockFees), BuildError> {
    let (mut state, mut action) = BuildState::start(key_id, wallet_listener_url);
    loop {
        let event = match action {
            BuildAction::FetchHead => {
                chain.heads_asked += 1;
                BuildEvent::Head(if chain.head_fails {
                    Err(ChainError::Other("no head".to_string()))
                } else {
                    Ok(ChainHead::new(grin_core::genesis::genesis_dev().header).unwrap())
                })
            }
            BuildAction::FetchDifficulty { height } => {
                assert_eq!(height, 1);
                let difficulty = Difficulty::min_dma();
                BuildEvent::Difficulty(Ok(NextDifficulty { difficulty, secondary_scaling: 1 }))
            }
            BuildAction::SelectTransactions => BuildEvent::Transactions(if pool.fails {
                Err("pool failure".to_string())
            } else {
                Ok(Mineable::new(Vec::<MineableTx>::new()).unwrap())
            }),
            BuildAction::RequestCoinbase(request) => {
                BuildEvent::CoinbaseReply(wallet.answer(&request.block_fees))
            }
            BuildAction::DecodeCoinbase { json } => BuildEvent::CoinbaseDecoded(decode(&json)),
            BuildAction::SetRoots(block) => {
                let answer = chain.roots.get_mut(chain.roots_asked).and_then(Option::take);
                chain.roots_asked += 1;
                BuildEvent::Roots(match answer {
                    Some(error) => Err(error),
                    None => Ok(block),
                })
            }
            BuildAction::Done(result) => return result,
        };
        let next = build_block(state, event);
        state = next.0;
        action = next.1;
    }
}

/// The whole run: attempts until a block is built or the stop signal, which
/// is set once `stop_after` attempts have been made, is seen.
fn mine(
    chain: &mut Chain,
    pool: &Pool,
    wallet: &mut Wallet,
    key_id: Option<Identifier>,
    wallet_listener_url: Option<String>,
    stop_after: usize,
) -> Run {
    let mut run = Run { returned: None, attempts: 0, delays: Vec::new() };
    let (mut state, mut action) = RetryState::start(key_id, wallet_listener_url);
    loop {
        let event = match action {
            RetryAction::Build { key_id, wallet_listener_url } => {
                run.attempts += 1;
                RetryEvent::Built(attempt(chain, pool, wallet, key_id, wallet_listener_url))
            }
            RetryAction::Delay { millis } => {
                run.delays.push(millis);
                RetryEvent::Delayed
            }
            RetryAction::CheckStop => RetryEvent::StopChecked(run.attempts >= stop_after),
            RetryAction::Return(returned) => {
                run.returned = returned;
                return run;
            }
        };
        let next = get_block(state, event);
        state = next.0;
        action = next.1;
    }
}

#[test]
fn a_duplicate_commitment_makes_the_wallet_pick_a_fresh_key() {
    use_test_chain();
    let mut chain = chain(vec![duplicate(), None]);
    let mut wallet = wallet(vec![]);
    let pool = Pool { fails: false };
    let run = mine(&mut chain, &pool, &mut wallet, Some(caller_key()), url(), 9);
    assert_eq!(run.attempts, 2);
    assert_eq!(run.delays, vec![100]);
    assert_eq!(wallet.asked, vec![Some(caller_key()), None]);
    assert_eq!(chain.roots_asked, 2);
    let (block, block_fees) = run.returned.expect("a block");
    assert_eq!(block.header.height, 1);
    assert_eq!(block_fees.key_id, Some(wallet_key()));
    assert_eq!(block_fees.fees, 0);
}

#[test]
fn a_wallet_that_comes_back_is_asked_for_the_same_key() {
    use_test_chain();
    let mut chain = chain(vec![]);
    let mut wallet = wallet(vec![false, true]);
    let pool = Pool { fails: false };
    let run = mine(&mut chain, &pool, &mut wallet, Some(caller_key()), url(), 9);
    assert_eq!(run.attempts, 2);
    assert_eq!(run.delays, vec![5000]);
    assert_eq!(wallet.asked, vec![Some(caller_key()), Some(caller_key())]);
    assert_eq!(chain.roots_asked, 1);
    let (_, block_fees) = run.returned.expect("a block");
    assert_eq!(block_fees.key_id, Some(caller_key()));
}

#[test]
fn a_failing_pool_still_gives_an_empty_block() {
    use_test_chain();
    let mut chain = chain(vec![]);
    let mut wallet = wallet(vec![]);
    let pool = Pool { fails: true };
    let built = attempt(&mut chain, &pool, &mut wallet, None, None);
    let (block, block_fees) = built.ok().expect("a block");
    assert_eq!(block.inputs().len(), 0);
    assert_eq!(block.outputs().len(), 1);
    assert_eq!(block.kernels().len(), 1);
    assert_eq!(block_fees.fees, 0);
    assert!(wallet.asked.is_empty());
}

#[test]
fn a_stop_signal_ends_the_run_after_one_attempt() {
    use_test_chain();
    let mut chain = chain(vec![]);
    chain.head_fails = true;
    let mut wallet = wallet(vec![]);
    let pool = Pool { fails: true };
    let run = mine(&mut chain, &pool, &mut wallet, Some(caller_key()), None, 1);
    assert!(run.returned.is_none());
    assert_eq!(run.attempts, 1);
    assert_eq!(chain.heads_asked, 1);
    assert!(run.delays.is_empty());
}

#[test]
fn without_a_stop_signal_a_failing_chain_is_asked_again() {
    use_test_chain();
    let mut chain = chain(vec![]);
    chain.head_fails = true;
    let mut wallet = wallet(vec![]);
    let pool = Pool { fails: false };
    let run = mine(&mut chain, &pool, &mut wallet, None, None, 4);
    assert!(run.returned.is_none());
    assert_eq!(run.attempts, 4);
    assert_eq!(chain.heads_asked, 4);
    assert!(run.delays.is_empty());
}

#[test]
fn without_a_wallet_nobody_is_asked() {
    use_test_chain();
    let mut chain = chain(vec![duplicate(), None]);
    let mut wallet = wallet(vec![]);
    let pool = Pool { fails: false };
    let run = mine(&mut chain, &pool, &mut wallet, Some(caller_key()), None, 9);
    assert_eq!(run.attempts, 2);
    assert_eq!(run.delays, vec![100]);
    assert!(wallet.asked.is_empty());
    let (block, block_fees) = run.returned.expect("a block");
    assert!(block.validate(&grin_core::genesis::genesis_dev().header.total_kernel_offset).is_ok());
    assert_eq!(block_fees.key_id, None);
}
