use grim::node::build_block::{assemble, BuildAction, BuildState, Draft};
use grim::node::coinbase::{burn_reward, get_coinbase, CoinbaseStep};
use grim::node::fees::Mineable;
use grim::node::mine_block::BlockFees;
use grim::node::types::{BuildError, ChainHead, NextDifficulty};
use grin_core::global::{set_local_chain_type, ChainTypes};
use grin_core::libtx::{reward, ProofBuilder};
use grin_core::pow::Difficulty;
use grin_keychain::{ExtKeychain, Keychain};

fn fees() -> BlockFees {
    BlockFees { fees: 3, height: 1, key_id: None }
}

#[test]
fn without_a_chain_type_nothing_is_burnt() {
    match burn_reward(fees()) {
        Err(BuildError::General(text)) => assert_eq!(text, "no chain type is set"),
        _ => panic!("a general failure"),
    }
    match get_coinbase(&None, fees()) {
        CoinbaseStep::Burnt(Err(BuildError::General(text))) => {
            assert_eq!(text, "no chain type is set")
        }
        _ => panic!("a general failure"),
    }
}

#[test]
fn without_a_chain_type_nothing_is_assembled() {
    set_local_chain_type(ChainTypes::AutomatedTesting);
    let keychain = ExtKeychain::from_random_seed(false).unwrap();
    let key_id = ExtKeychain::derive_key_id(1, 1, 0, 0, 0);
    let (output, kernel) =
        reward::output(&keychain, &ProofBuilder::new(&keychain), &key_id, 3, false).unwrap();
    let head = ChainHead::new(grin_core::genesis::genesis_dev().header).unwrap();
    let difficulty = NextDifficulty { difficulty: Difficulty::min_dma(), secondary_scaling: 1 };
    let draft = Draft { head, timestamp: 1_700_000_000, difficulty, txs: Mineable::empty() };
    grin_core::global::CHAIN_TYPE.with(|chain_type| chain_type.set(None));
    let (state, action) = assemble(draft, output, kernel, fees(), 0);
    assert!(matches!(state, BuildState::Finished));
    match action {
        BuildAction::Done(Err(BuildError::General(text))) => {
            assert_eq!(text, "no chain type is set")
        }
        _ => panic!("a general failure"),
    }
}

#[test]
fn the_chain_type_of_the_thread_is_enough() {
    set_local_chain_type(ChainTypes::AutomatedTesting);
    let no_fees = BlockFees { fees: 0, height: 1, key_id: None };
    let (output, kernel, block_fees) = burn_reward(no_fees).ok().expect("a reward");
    let head = ChainHead::new(grin_core::genesis::genesis_dev().header).unwrap();
    let difficulty = NextDifficulty { difficulty: Difficulty::min_dma(), secondary_scaling: 1 };
    let draft = Draft { head, timestamp: 1_700_000_000, difficulty, txs: Mineable::empty() };
    let (_, action) = assemble(draft, output, kernel, block_fees, 0);
    assert!(matches!(action, BuildAction::SetRoots(_)));
}
