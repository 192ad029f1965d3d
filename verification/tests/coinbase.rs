use grim::node::coinbase::{
    burn_reward, burnt, coinbase_from_data, coinbase_reply, create_coinbase, envelope,
    get_coinbase, read_coinbase_reply, CoinbaseStep, Envelope, Reading, WalletFailure,
};
use grim::node::requests::burn_request;
use grim::node::mine_block::{BlockFees, CbData};
use grim::node::types::BuildError;
use grin_core::global::{init_global_chain_type, set_local_chain_type, ChainTypes};
use grin_core::libtx::{reward, ProofBuilder};
use grin_keychain::{ExtKeychain, Identifier, Keychain};

fn use_test_chain() {
    init_global_chain_type(ChainTypes::AutomatedTesting);
    set_local_chain_type(ChainTypes::AutomatedTesting);
}

fn key() -> Identifier {
    ExtKeychain::derive_key_id(3, 0, 1, 2, 0)
}

fn fees(fees: u64, key_id: Option<Identifier>) -> BlockFees {
    BlockFees { fees, height: 12, key_id }
}

fn wallet_comm(result: Result<String, BuildError>) -> String {
    match result {
        Err(BuildError::WalletComm(report)) => report,
        _ => panic!("a failure to talk to the wallet"),
    }
}

#[test]
fn the_request_goes_to_the_foreign_api() {
    let request = create_coinbase("http://127.0.0.1:3415", fees(55, Some(key())));
    assert_eq!(request.url, "http://127.0.0.1:3415/v2/foreign");
    assert_eq!(request.jsonrpc, "2.0");
    assert_eq!(request.method, "build_coinbase");
    assert_eq!(request.id, 1);
    assert_eq!(request.block_fees.fees, 55);
    assert_eq!(request.block_fees.height, 12);
    assert_eq!(request.block_fees.key_id, Some(key()));
}

#[test]
fn the_request_url_is_the_destination_with_the_path_appended() {
    assert_eq!(create_coinbase("", fees(0, None)).url, "/v2/foreign");
    assert_eq!(create_coinbase("w/", fees(0, None)).url, "w//v2/foreign");
}

#[test]
fn with_a_wallet_the_wallet_is_asked() {
    let url = Some("https://wallet.example".to_string());
    match get_coinbase(&url, fees(7, Some(key()))) {
        CoinbaseStep::Ask(request) => {
            assert_eq!(request.url, "https://wallet.example/v2/foreign");
            assert_eq!(request.block_fees.fees, 7);
            assert_eq!(request.block_fees.key_id, Some(key()));
        }
        CoinbaseStep::Burnt(_) => panic!("nothing is burnt where a wallet is configured"),
    }
}

#[test]
fn local_burn_path_never_calls_network() {
    use_test_chain();
    match get_coinbase(&None, fees(7, Some(key()))) {
        CoinbaseStep::Burnt(Ok((output, kernel, block_fees))) => {
            assert!(output.is_coinbase());
            assert!(kernel.is_coinbase());
            assert!(kernel.verify().is_ok());
            assert_eq!(block_fees.fees, 7);
            assert_eq!(block_fees.height, 12);
            assert_eq!(block_fees.key_id, Some(key()));
        }
        CoinbaseStep::Burnt(Err(_)) => panic!("the reward can be burnt"),
        CoinbaseStep::Ask(_) => panic!("nobody is asked where no wallet is configured"),
    }
}

#[test]
fn a_burnt_reward_keeps_the_fees_it_was_made_for() {
    use_test_chain();
    let (output, kernel, block_fees) = match burn_reward(fees(1_000, None)) {
        Ok(burnt) => burnt,
        Err(_) => panic!("the reward can be burnt"),
    };
    assert!(output.is_coinbase());
    assert!(kernel.is_coinbase());
    assert_eq!(block_fees.fees, 1_000);
    assert_eq!(block_fees.height, 12);
    assert!(block_fees.key_id.is_none());
}

#[test]
fn two_burnt_rewards_differ() {
    use_test_chain();
    let first = burn_reward(fees(0, None)).ok().expect("a reward");
    let second = burn_reward(fees(0, None)).ok().expect("a reward");
    assert_ne!(first.0.commitment(), second.0.commitment());
}

#[test]
fn an_unreachable_wallet_is_reported() {
    let report = wallet_comm(coinbase_reply("http://w", Err(WalletFailure::NotReached("timed out".to_string()))));
    assert_eq!(report, "Failed to get coinbase from http://w. Is the wallet listening? timed out");
    let report = wallet_comm(read_coinbase_reply("http://w", Err(WalletFailure::NotReached("refused".to_string()))));
    assert_eq!(report, "Failed to get coinbase from http://w. Is the wallet listening? refused");
}

#[test]
fn a_request_that_could_not_be_made_is_no_wallet_failure() {
    let failure = WalletFailure::NotAsked("Bad request: invalid uri".to_string());
    match coinbase_reply("http://w", Err(failure)) {
        Err(BuildError::Api(detail)) => assert_eq!(detail, "Bad request: invalid uri"),
        _ => panic!("a failure of the request"),
    }
    let failure = WalletFailure::NotAsked("x".to_string());
    assert!(matches!(read_coinbase_reply("w", Err(failure)), Err(BuildError::Api(_))));
}

#[test]
fn an_error_of_the_wallet_is_reported_with_code_and_message() {
    let fault = Envelope::Fault { code: "-32601".to_string(), message: "\"no\"".to_string() };
    let report = wallet_comm(coinbase_reply("http://w", Ok(fault)));
    assert_eq!(report, "Failed to get coinbase from http://w: Error: -32601, Message: \"no\"");
}

#[test]
fn an_answer_that_is_no_json_is_reported() {
    let report = wallet_comm(coinbase_reply("d", Ok(Envelope::Malformed("eof".to_string()))));
    assert_eq!(report, "Couldn't deserialize CbData: eof");
    let report = wallet_comm(read_coinbase_reply("d", Ok("<html>".to_string())));
    assert!(report.starts_with("Couldn't deserialize CbData: "));
    assert!(report.len() > "Couldn't deserialize CbData: ".len());
}

#[test]
fn a_payload_is_handed_on_as_it_is() {
    let reply = coinbase_reply("d", Ok(Envelope::Payload("{\"a\":1}".to_string())));
    assert_eq!(reply.ok(), Some("{\"a\":1}".to_string()));
}

#[test]
fn an_error_envelope_is_read_from_the_answer() {
    let body = "{\"id\":1,\"jsonrpc\":\"2.0\",\"error\":{\"code\":-32601,\"message\":\"Method not found\"}}";
    let report = wallet_comm(read_coinbase_reply("http://w:3415", Ok(body.to_string())));
    assert_eq!(
        report,
        "Failed to get coinbase from http://w:3415: Error: -32601, Message: \"Method not found\""
    );
}

#[test]
fn an_error_envelope_wins_over_a_result() {
    let body = "{\"error\":{\"code\":1,\"message\":\"m\"},\"result\":{\"Ok\":{\"x\":1}}}";
    let report = wallet_comm(read_coinbase_reply("w", Ok(body.to_string())));
    assert_eq!(report, "Failed to get coinbase from w: Error: 1, Message: \"m\"");
}

#[test]
fn an_error_without_code_is_reported_with_null() {
    let body = "{\"error\":\"broken\"}";
    let report = wallet_comm(read_coinbase_reply("w", Ok(body.to_string())));
    assert_eq!(report, "Failed to get coinbase from w: Error: null, Message: null");
}

#[test]
fn the_ok_member_of_the_result_is_the_payload() {
    let body = "{\"id\":1,\"jsonrpc\":\"2.0\",\"result\":{\"Ok\":{\"key_id\":null,\"n\":[1,2]}}}";
    let payload = read_coinbase_reply("w", Ok(body.to_string())).ok().expect("a payload");
    let value: serde_json::Value = serde_json::from_str(&payload).unwrap();
    assert!(value["key_id"].is_null());
    assert_eq!(value["n"][1].as_u64(), Some(2));
}

#[test]
fn a_null_error_is_no_error() {
    let body = "{\"error\":null,\"result\":{\"Ok\":7}}";
    assert_eq!(read_coinbase_reply("w", Ok(body.to_string())).ok(), Some("7".to_string()));
}

#[test]
fn an_answer_without_result_has_a_null_payload() {
    let payload = read_coinbase_reply("w", Ok("{\"id\":1}".to_string())).ok();
    assert_eq!(payload, Some("null".to_string()));
    let payload = read_coinbase_reply("w", Ok("{\"result\":{\"Err\":\"x\"}}".to_string())).ok();
    assert_eq!(payload, Some("null".to_string()));
}

#[test]
fn the_wallets_key_overrides_the_requested_one() {
    use_test_chain();
    let keychain = ExtKeychain::from_random_seed(false).unwrap();
    let wallet_key = ExtKeychain::derive_key_id(3, 9, 9, 9, 0);
    let (output, kernel) =
        reward::output(&keychain, &ProofBuilder::new(&keychain), &wallet_key, 5, false).unwrap();
    let data = CbData { output, kernel, key_id: Some(wallet_key.clone()) };
    let coinbase = coinbase_from_data(fees(5, Some(key())), Ok(data));
    let (made, signed, block_fees) = coinbase.ok().expect("a coinbase");
    assert_eq!(made.commitment(), output.commitment());
    assert_eq!(signed.excess(), kernel.excess());
    assert_eq!(block_fees.fees, 5);
    assert_eq!(block_fees.height, 12);
    assert_eq!(block_fees.key_id, Some(wallet_key));
}

#[test]
fn a_wallet_that_names_no_key_clears_the_key() {
    use_test_chain();
    let keychain = ExtKeychain::from_random_seed(false).unwrap();
    let (output, kernel) =
        reward::output(&keychain, &ProofBuilder::new(&keychain), &key(), 0, false).unwrap();
    let coinbase = coinbase_from_data(fees(0, Some(key())), Ok(CbData { output, kernel, key_id: None }));
    assert!(coinbase.ok().expect("a coinbase").2.key_id.is_none());
}

#[test]
fn data_that_is_no_coinbase_is_reported() {
    let coinbase = coinbase_from_data(fees(5, None), Err("missing field `output`".to_string()));
    match coinbase {
        Err(BuildError::WalletComm(report)) => {
            assert_eq!(report, "Couldn't deserialize CbData: missing field `output`")
        }
        _ => panic!("a failure to talk to the wallet"),
    }
}

#[test]
fn a_copy_of_the_fees_is_equal_to_them() {
    let kept = fees(77, Some(key()));
    let copy = kept.duplicate();
    assert_eq!(copy.fees, 77);
    assert_eq!(copy.height, 12);
    assert_eq!(copy.key_id, kept.key_id);
    assert_eq!(kept.key_id(), Some(key()));
    assert_eq!(fees(1, None).key_id(), None);
}

fn reading(error_is_null: bool) -> Reading {
    Reading {
        error_is_null,
        code: "-32000".to_string(),
        message: "\"busy\"".to_string(),
        payload: "{\"key_id\":null}".to_string(),
    }
}

#[test]
fn an_error_that_is_not_null_makes_a_fault() {
    match envelope(Ok(reading(false))) {
        Envelope::Fault { code, message } => {
            assert_eq!(code, "-32000");
            assert_eq!(message, "\"busy\"");
        }
        _ => panic!("a fault"),
    }
}

#[test]
fn an_answer_without_error_is_its_payload() {
    match envelope(Ok(reading(true))) {
        Envelope::Payload(json) => assert_eq!(json, "{\"key_id\":null}"),
        _ => panic!("a payload"),
    }
}

#[test]
fn what_is_no_json_is_malformed() {
    match envelope(Err("expected value at line 1 column 1".to_string())) {
        Envelope::Malformed(detail) => assert_eq!(detail, "expected value at line 1 column 1"),
        _ => panic!("a malformed answer"),
    }
}

#[test]
fn a_burnt_reward_is_asked_for_the_fees_of_the_block() {
    let request = burn_request(&fees(4_321, Some(key())));
    assert_eq!(request.depth(), 1);
    assert_eq!(request.path(), (1, 0, 0, 0));
    assert_eq!(request.fees(), 4_321);
    assert!(!request.test_mode());
}

#[test]
fn a_burnt_reward_pays_the_reward_and_the_fees() {
    use_test_chain();
    let (output, kernel, _) = burn_reward(fees(4_321, None)).ok().expect("a reward");
    let keychain = ExtKeychain::from_random_seed(false).unwrap();
    let key_id = ExtKeychain::derive_key_id(1, 1, 0, 0, 0);
    let (_, expected) =
        reward::output(&keychain, &ProofBuilder::new(&keychain), &key_id, 4_321, false).unwrap();
    assert_eq!(kernel.features, expected.features);
    assert!(kernel.verify().is_ok());
    assert!(output.is_coinbase());
    let head = grin_core::genesis::genesis_dev().header;
    let difficulty = grin_core::pow::Difficulty::min_dma();
    let block = grin_core::core::Block::from_reward(&head, &[], output, kernel, difficulty).unwrap();
    assert!(block.verify_coinbase().is_err());
}

#[test]
fn what_came_back_decides_what_a_burnt_reward_comes_to() {
    let failed = || Err("not asked".to_string());
    match burnt(fees(9, None), false, Some("k".to_string()), failed()) {
        Err(BuildError::General(text)) => assert_eq!(text, "no chain type is set"),
        _ => panic!("a general failure"),
    }
    match burnt(fees(9, None), true, Some("no seed".to_string()), failed()) {
        Err(BuildError::Keychain(text)) => assert_eq!(text, "no seed"),
        _ => panic!("a failure of the keychain"),
    }
    match burnt(fees(9, None), true, None, Err("no proof".to_string())) {
        Err(BuildError::LibTx(text)) => assert_eq!(text, "no proof"),
        _ => panic!("a failure of the reward"),
    }
}
