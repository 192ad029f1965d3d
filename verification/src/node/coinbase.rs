//! The coinbase of a block: made here and burnt where no wallet is
//! configured, asked of the wallet where one is.

use vstd::prelude::*;
use grin_keychain::Identifier;
use crate::node::mine_block::{BlockFees, CbData};
use crate::gui::outside::{spec_trim, trim};
use crate::node::outside::{
    active_chain, identifier_from_hex, is_hex, json_as_str, json_is_null,
    json_member, json_parse, json_string_or_u64, json_text, keychain_from_random_seed,
    reward_output, spec_identifier_bytes, spec_identifier_from_hex, spec_is_hex,
    spec_json_member, spec_json_parse, spec_json_str, spec_json_string_or_u64, spec_json_text,
    BurntReward,
};
use crate::node::requests::burn_request;
use crate::node::types::{BuildError, BuildErrorView};

verus! {

/// The call that asks a wallet for a coinbase.
pub struct CoinbaseRequest {
    /// Where the call goes.
    pub url: String,
    /// The version of JSON-RPC.
    pub jsonrpc: String,
    /// The method that is called.
    pub method: String,
    /// The number of the call.
    pub id: u64,
    /// The parameter `block_fees` of the call.
    pub block_fees: BlockFees,
}

impl CoinbaseRequest {
    /// The request is the one that asks the wallet at `dest` for a coinbase
    /// for `block_fees`.
    pub open spec fn is_for(self, dest: Seq<char>, block_fees: BlockFees) -> bool {
        &&& self.url@ == dest + "/v2/foreign"@
        &&& self.jsonrpc@ == "2.0"@
        &&& self.method@ == "build_coinbase"@
        &&& self.id == 1
        &&& self.block_fees == block_fees
    }
}

/// What the answer of a wallet holds, as far as the builder reads it.
pub enum Envelope {
    /// The answer is no JSON; the text says why.
    Malformed(String),
    /// The answer has a member `error` that is not `null`; its members `code`
    /// and `message`, written as JSON.
    Fault { code: String, message: String },
    /// The answer has no error; its member `Ok` of `result`, written as JSON.
    Payload(String),
}

/// What was read in an answer of a wallet that is JSON.
pub struct Reading {
    /// The member `error` of the answer is `null`, or there is none.
    pub error_is_null: bool,
    /// The member `code` of the error, written as JSON.
    pub code: String,
    /// The member `message` of the error, written as JSON.
    pub message: String,
    /// The member `Ok` of the member `result` of the answer, written as JSON.
    pub payload: String,
}

/// What an answer holds in which `read` was read, or which is no JSON for the
/// reason that `read` gives: an error that is not `null` makes the answer a
/// fault, whatever else it holds.
pub open spec fn spec_envelope(read: Result<Reading, String>) -> Envelope {
    match read {
        Err(detail) => Envelope::Malformed(detail),
        Ok(reading) => if reading.error_is_null {
            Envelope::Payload(reading.payload)
        } else {
            Envelope::Fault { code: reading.code, message: reading.message }
        },
    }
}

/// Why no answer came from the wallet.
pub enum WalletFailure {
    /// The request could not be made; the text says why.
    NotAsked(String),
    /// The request was sent and no answer came; the text says why.
    NotReached(String),
}

/// How the builder gets its coinbase.
pub enum CoinbaseStep {
    /// No wallet is configured: the reward was burnt, or could not be made.
    Burnt(Result<(grin_core::core::Output, grin_core::core::TxKernel, BlockFees), BuildError>),
    /// A wallet is configured: it is to be asked.
    Ask(CoinbaseRequest),
}

/// The report of a wallet that could not be reached.
pub open spec fn spec_unreachable_report(dest: Seq<char>, failure: Seq<char>) -> Seq<char> {
    "Failed to get coinbase from "@ + dest + ". Is the wallet listening? "@ + failure
}

/// The report of a wallet that answered with an error.
pub open spec fn spec_fault_report(dest: Seq<char>, code: Seq<char>, message: Seq<char>) -> Seq<
    char,
> {
    "Failed to get coinbase from "@ + dest + ": Error: "@ + code + ", Message: "@ + message
}

/// The report of an answer that holds no coinbase.
pub open spec fn spec_undecodable_report(detail: Seq<char>) -> Seq<char> {
    "Couldn't deserialize CbData: "@ + detail
}

/// What the builder makes of the answer of the wallet at `dest`: the
/// coinbase as JSON text, or the failure to ask or to talk to the wallet.
pub open spec fn spec_coinbase_reply(dest: Seq<char>, reply: Result<Envelope, WalletFailure>)
    -> Result<Seq<char>, BuildErrorView> {
    match reply {
        Err(WalletFailure::NotAsked(detail)) => Err(BuildErrorView::Api(detail@)),
        Err(WalletFailure::NotReached(detail)) => Err(
            BuildErrorView::WalletComm(spec_unreachable_report(dest, detail@)),
        ),
        Ok(Envelope::Malformed(detail)) => Err(
            BuildErrorView::WalletComm(spec_undecodable_report(detail@)),
        ),
        Ok(Envelope::Fault { code, message }) => Err(
            BuildErrorView::WalletComm(spec_fault_report(dest, code@, message@)),
        ),
        Ok(Envelope::Payload(json)) => Ok(json@),
    }
}

/// `result` says what `expected` says: the same text on success, and a
/// failure of the same kind with the same text otherwise.
pub open spec fn same_reply(result: Result<String, BuildError>, expected: Result<
    Seq<char>,
    BuildErrorView,
>) -> bool {
    match expected {
        Ok(json) => result matches Ok(text) && text@ == json,
        Err(failure) => result matches Err(error) && error@ == failure,
    }
}

/// The request that asks the wallet at `dest` for a coinbase for
/// `block_fees`.
pub fn create_coinbase(dest: &str, block_fees: BlockFees) -> (request: CoinbaseRequest)
    ensures
        request.is_for(dest@, block_fees),
{
    let mut url = String::from_str(dest);
    url.append("/v2/foreign");
    CoinbaseRequest {
        url,
        jsonrpc: String::from_str("2.0"),
        method: String::from_str("build_coinbase"),
        id: 1,
        block_fees,
    }
}

/// `read` is what is read in the answer `body` of a wallet: where the body is
/// JSON, whether its member `error` is `null`, and the members `code` and
/// `message` of that member and the member `Ok` of its member `result`, each
/// written as JSON; where it is none, the reason.
pub open spec fn is_reading_of(read: Result<Reading, String>, body: Seq<char>) -> bool {
    match spec_json_parse(body) {
        Err(detail) => read matches Err(text) && text@ == detail,
        Ok(answer) => {
            let error = spec_json_member(answer, "error"@);
            &&& read matches Ok(reading)
            &&& reading.error_is_null == (error == "null"@)
            &&& reading.code@ == spec_json_member(error, "code"@)
            &&& reading.message@ == spec_json_member(error, "message"@)
            &&& reading.payload@ == spec_json_member(spec_json_member(answer, "result"@), "Ok"@)
        },
    }
}

/// Reads the answer of a wallet as far as the builder needs it.
fn read_answer(body: &str) -> (read: Result<Reading, String>)
    ensures
        is_reading_of(read, body@),
{
    match json_parse(body) {
        Err(detail) => Err(detail),
        Ok(answer) => {
            let error = json_member(&answer, "error");
            Ok(
                Reading {
                    error_is_null: json_is_null(error),
                    code: json_text(json_member(error, "code")),
                    message: json_text(json_member(error, "message")),
                    payload: json_text(json_member(json_member(&answer, "result"), "Ok")),
                },
            )
        },
    }
}

/// What an answer holds in which `read` was read, or which is no JSON for the
/// reason that `read` gives.
pub fn envelope(read: Result<Reading, String>) -> (envelope: Envelope)
    ensures
        envelope == spec_envelope(read),
{
    match read {
        Err(detail) => Envelope::Malformed(detail),
        Ok(reading) => {
            if reading.error_is_null {
                Envelope::Payload(reading.payload)
            } else {
                Envelope::Fault { code: reading.code, message: reading.message }
            }
        },
    }
}

/// What the builder makes of the answer of the wallet at `dest`, once the
/// answer has been read: the coinbase as JSON text, or the failure to ask or
/// to talk to the wallet.
pub fn coinbase_reply(dest: &str, reply: Result<Envelope, WalletFailure>) -> (result: Result<
    String,
    BuildError,
>)
    ensures
        same_reply(result, spec_coinbase_reply(dest@, reply)),
{
    match reply {
        Err(WalletFailure::NotAsked(detail)) => Err(BuildError::Api(detail)),
        Err(WalletFailure::NotReached(detail)) => {
            let mut report = String::from_str("Failed to get coinbase from ");
            report.append(dest);
            report.append(". Is the wallet listening? ");
            report.append(detail.as_str());
            Err(BuildError::WalletComm(report))
        },
        Ok(Envelope::Malformed(detail)) => {
            let mut report = String::from_str("Couldn't deserialize CbData: ");
            report.append(detail.as_str());
            Err(BuildError::WalletComm(report))
        },
        Ok(Envelope::Fault { code, message }) => {
            let mut report = String::from_str("Failed to get coinbase from ");
            report.append(dest);
            report.append(": Error: ");
            report.append(code.as_str());
            report.append(", Message: ");
            report.append(message.as_str());
            Err(BuildError::WalletComm(report))
        },
        Ok(Envelope::Payload(json)) => Ok(json),
    }
}

/// What the builder makes of what came back from the wallet at `dest`: the
/// coinbase as JSON text, or the failure to ask or to talk to the wallet.
///
/// Where no answer came, the result is what [`coinbase_reply`] says for the
/// failure. An answer is read as JSON by `serde_json`, as [`is_reading_of`]
/// says; the result is what [`coinbase_reply`] says for the envelope that
/// [`spec_envelope`] makes of what was read.
pub fn read_coinbase_reply(dest: &str, reply: Result<String, WalletFailure>) -> (result: Result<
    String,
    BuildError,
>)
    ensures
        reply matches Err(failure) ==> same_reply(
            result,
            spec_coinbase_reply(dest@, Err(failure)),
        ),
        reply is Ok ==> exists|read: Result<Reading, String>| #[trigger]
            same_reply(result, spec_coinbase_reply(dest@, Ok(spec_envelope(read)))),
        reply matches Ok(body) ==> exists|read: Result<Reading, String>|
            is_reading_of(read, body@) && #[trigger] same_reply(
                result,
                spec_coinbase_reply(dest@, Ok(spec_envelope(read))),
            ),
{
    match reply {
        Err(failure) => coinbase_reply(dest, Err(failure)),
        Ok(body) => {
            let read = read_answer(body.as_str());
            let result = coinbase_reply(dest, Ok(envelope(read)));
            assert(is_reading_of(read, body@) && same_reply(
                result,
                spec_coinbase_reply(dest@, Ok(spec_envelope(read))),
            ));
            result
        },
    }
}

/// The coinbase that a wallet made, with the fees it was made for: the key
/// is the one that the wallet says it used. What could not be decoded is a
/// failure to talk to the wallet.
pub open spec fn spec_coinbase_from_data(block_fees: BlockFees, decoded: Result<CbData, String>)
    -> Result<(grin_core::core::Output, grin_core::core::TxKernel, BlockFees), BuildErrorView> {
    match decoded {
        Ok(data) => Ok(
            (
                data.output,
                data.kernel,
                BlockFees { fees: block_fees.fees, height: block_fees.height, key_id: data.key_id },
            ),
        ),
        Err(detail) => Err(BuildErrorView::WalletComm(spec_undecodable_report(detail@))),
    }
}

/// The coinbase that a wallet made, with the fees it was made for.
pub fn coinbase_from_data(block_fees: BlockFees, decoded: Result<CbData, String>) -> (result:
    Result<(grin_core::core::Output, grin_core::core::TxKernel, BlockFees), BuildError>)
    ensures
        match spec_coinbase_from_data(block_fees, decoded) {
            Ok(coinbase) => result == Ok::<_, BuildError>(coinbase),
            Err(failure) => result matches Err(error) && error@ == failure,
        },
{
    match decoded {
        Ok(data) => Ok(
            (
                data.output,
                data.kernel,
                BlockFees { fees: block_fees.fees, height: block_fees.height, key_id: data.key_id },
            ),
        ),
        Err(detail) => {
            let mut report = String::from_str("Couldn't deserialize CbData: ");
            report.append(detail.as_str());
            Err(BuildError::WalletComm(report))
        },
    }
}

/// What a burnt reward comes to, for what the process, the keychain and the
/// reward gave: without a chain type nothing is made; a keychain that could
/// not be made and a reward that could not be made are failures of their own
/// kinds, with the text that came with them; and a reward that was made comes
/// back with the fees it was made for, unchanged.
pub open spec fn spec_burn_reward(
    block_fees: BlockFees,
    chain_type_set: bool,
    keychain_failure: Option<String>,
    reward: Result<BurntReward, String>,
) -> Result<(grin_core::core::Output, grin_core::core::TxKernel, BlockFees), BuildErrorView> {
    if !chain_type_set {
        Err(BuildErrorView::General("no chain type is set"@))
    } else {
        match keychain_failure {
            Some(detail) => Err(BuildErrorView::Keychain(detail@)),
            None => match reward {
                Ok(made) => Ok((made.spec_output(), made.spec_kernel(), block_fees)),
                Err(detail) => Err(BuildErrorView::LibTx(detail@)),
            },
        }
    }
}

/// `outcome` is what `expected` says: the same coinbase and fees, or a
/// failure of the same kind with the same text.
pub open spec fn same_coinbase(
    outcome: Result<(grin_core::core::Output, grin_core::core::TxKernel, BlockFees), BuildError>,
    expected: Result<
        (grin_core::core::Output, grin_core::core::TxKernel, BlockFees),
        BuildErrorView,
    >,
) -> bool {
    match expected {
        Ok(coinbase) => outcome == Ok::<_, BuildError>(coinbase),
        Err(failure) => outcome matches Err(error) && error@ == failure,
    }
}

/// `outcome` is what a burnt reward for `block_fees` can come to: what
/// [`spec_burn_reward`] says for something that the process, the keychain and
/// the reward can give, where a reward is one that was made for the request
/// for `block_fees`.
pub open spec fn is_burnt(
    outcome: Result<(grin_core::core::Output, grin_core::core::TxKernel, BlockFees), BuildError>,
    block_fees: BlockFees,
) -> bool {
    exists|chain_type_set: bool, keychain_failure: Option<String>, reward: Result<BurntReward, String>|
        {
            &&& #[trigger] same_coinbase(
                outcome,
                spec_burn_reward(block_fees, chain_type_set, keychain_failure, reward),
            )
            &&& reward matches Ok(made) ==> made.spec_request().is_for(block_fees)
        }
}

/// A burnt reward comes back with the fees it was made for, unchanged, or
/// fails for a reason that has nothing to do with the chain or the wallet.
pub proof fn lemma_burnt_keeps_fees(
    outcome: Result<(grin_core::core::Output, grin_core::core::TxKernel, BlockFees), BuildError>,
    block_fees: BlockFees,
)
    requires
        is_burnt(outcome, block_fees),
    ensures
        match outcome {
            Ok(coinbase) => coinbase.2 == block_fees,
            Err(error) => error is General || error is Keychain || error is LibTx,
        },
{
}

/// What a burnt reward for `block_fees` comes to, for what came back:
/// whether the process has a chain type, why no keychain was made, if none
/// was, and the reward or why none was made. What was not asked for, because
/// an earlier answer ended the burning, is not looked at.
pub fn burnt(
    block_fees: BlockFees,
    chain_type_set: bool,
    keychain_failure: Option<String>,
    reward: Result<BurntReward, String>,
) -> (outcome: Result<(grin_core::core::Output, grin_core::core::TxKernel, BlockFees), BuildError>)
    ensures
        same_coinbase(
            outcome,
            spec_burn_reward(block_fees, chain_type_set, keychain_failure, reward),
        ),
{
    if !chain_type_set {
        Err(BuildError::General(String::from_str("no chain type is set")))
    } else {
        match keychain_failure {
            Some(detail) => Err(BuildError::Keychain(detail)),
            None => match reward {
                Ok(made) => {
                    let (output, kernel) = made.into_coinbase();
                    Ok((output, kernel, block_fees))
                },
                Err(detail) => Err(BuildError::LibTx(detail)),
            },
        }
    }
}

/// Makes a coinbase that nobody can spend: the reward goes to the first key
/// of a keychain that is made from a random seed and then forgotten.
///
/// The keychain is made by `grin_keychain`, and the reward by `grin_core`,
/// which is asked for what [`burn_request`] says. Whatever they give, the
/// outcome is what [`burnt`] makes of it.
pub fn burn_reward(block_fees: BlockFees) -> (outcome: Result<
    (grin_core::core::Output, grin_core::core::TxKernel, BlockFees),
    BuildError,
>)
    ensures
        is_burnt(outcome, block_fees),
{
    let chain = match active_chain() {
        Some(chain) => chain,
        None => {
            return burnt(block_fees, false, None, Err(String::new()));
        },
    };
    let keychain = match keychain_from_random_seed(&chain) {
        Ok(keychain) => keychain,
        Err(detail) => {
            return burnt(block_fees, true, Some(detail), Err(String::new()));
        },
    };
    let reward = reward_output(&chain, &keychain, burn_request(&block_fees));
    burnt(block_fees, true, None, reward)
}

/// Gets the coinbase for a block with `block_fees`, or says whom to ask.
///
/// Without a wallet the reward is burnt here and nobody is asked. With a
/// wallet nothing is made here: the result is the request to send.
pub fn get_coinbase(wallet_listener_url: &Option<String>, block_fees: BlockFees) -> (step:
    CoinbaseStep)
    ensures
        *wallet_listener_url is None ==> (step matches CoinbaseStep::Burnt(outcome) && is_burnt(
            outcome,
            block_fees,
        )),
        *wallet_listener_url matches Some(dest) ==> (step matches CoinbaseStep::Ask(request)
            && request.is_for(dest@, block_fees)),
{
    match wallet_listener_url {
        None => CoinbaseStep::Burnt(burn_reward(block_fees)),
        Some(dest) => CoinbaseStep::Ask(create_coinbase(dest.as_str(), block_fees)),
    }
}

impl BlockFees {
    /// The fees that three fields of a JSON object stand for, each as far as
    /// it could be read: all three, or nothing.
    pub open spec fn spec_from_fields(
        fees: Option<u64>,
        height: Option<u64>,
        key_id: Result<Option<Identifier>, String>,
    ) -> Option<BlockFees> {
        match (fees, height, key_id) {
            (Some(fees), Some(height), Ok(key_id)) => Some(BlockFees { fees, height, key_id }),
            _ => None,
        }
    }

    /// The fees that three fields of a JSON object stand for, each as far as
    /// it could be read.
    pub fn from_fields(
        fees: Option<u64>,
        height: Option<u64>,
        key_id: Result<Option<Identifier>, String>,
    ) -> (block_fees: Option<BlockFees>)
        ensures
            block_fees == Self::spec_from_fields(fees, height, key_id),
    {
        match (fees, height, key_id) {
            (Some(fees), Some(height), Ok(key_id)) => Some(BlockFees { fees, height, key_id }),
            _ => None,
        }
    }

    /// `block_fees` is what is read from the JSON text `text`: fees where the
    /// text is JSON in which the members `fees` and `height` hold a number
    /// each and the member `key_id` holds a key or none, and nothing
    /// otherwise. The fees and the height are the numbers that were read;
    /// there is no key exactly where the member `key_id` is `null` or missing,
    /// and a key has the bytes that `grin_keychain` makes of the text of that
    /// member without the white space at its ends.
    pub open spec fn is_read_from(block_fees: Option<BlockFees>, text: Seq<char>) -> bool {
        match spec_json_parse(text) {
            Err(_) => block_fees is None,
            Ok(json) => {
                let fees = spec_json_string_or_u64(spec_json_member(json, "fees"@));
                let height = spec_json_string_or_u64(spec_json_member(json, "height"@));
                let key = spec_json_member(json, "key_id"@);
                if fees is Some && height is Some && spec_reads_key_id(key) {
                    &&& block_fees matches Some(read)
                    &&& read.fees == fees->0
                    &&& read.height == height->0
                    &&& read.key_id is None <==> key == "null"@
                    &&& read.key_id matches Some(key_id) ==> spec_identifier_bytes(key_id)
                        == spec_identifier_from_hex(spec_trim(spec_json_str(key)->0))
                } else {
                    block_fees is None
                }
            },
        }
    }

    /// Reads fees from JSON text: an object with the members `fees` and
    /// `height`, each a number or a text of digits, and `key_id`, a text of
    /// hexadecimal digits or `null`.
    ///
    /// The text is read by `serde_json`, the numbers by `grin_core` and the
    /// key by `grin_keychain`; the result is what [`BlockFees::is_read_from`]
    /// says for what they read.
    pub fn from_json(text: &str) -> (block_fees: Option<BlockFees>)
        ensures
            Self::is_read_from(block_fees, text@),
    {
        match json_parse(text) {
            Ok(value) => BlockFees::from_fields(
                json_string_or_u64(json_member(&value, "fees")),
                json_string_or_u64(json_member(&value, "height")),
                read_key_id(json_member(&value, "key_id")),
            ),
            Err(_) => None,
        }
    }
}

/// Whether the JSON value that holds `key` can be read as the key of a
/// coinbase: it is `null`, or a text from which, once the white space at its
/// ends is gone, `grin_util` reads bytes in hexadecimal digits.
pub open spec fn spec_reads_key_id(key: Seq<char>) -> bool {
    ||| key == "null"@
    ||| (spec_json_str(key) matches Some(hex) && vstd::utf8::is_ascii_chars(spec_trim(hex))
        && spec_is_hex(spec_trim(hex)))
}

/// Reads the key of a coinbase from a JSON value, as `grin_keychain` reads
/// it, but for a text that spells no bytes, which is refused here: no key for
/// `null`, and the key that the hexadecimal digits of a text spell.
fn read_key_id(value: &serde_json::Value) -> (key_id: Result<Option<Identifier>, String>)
    ensures
        key_id is Ok <==> spec_reads_key_id(spec_json_text(*value)),
        key_id matches Ok(key) ==> (key is None <==> spec_json_text(*value) == "null"@),
        key_id matches Ok(Some(key)) ==> spec_identifier_bytes(key) == spec_identifier_from_hex(
            spec_trim(spec_json_str(spec_json_text(*value))->0),
        ),
{
    if json_is_null(value) {
        return Ok(None);
    }
    match json_as_str(value) {
        Some(text) => {
            let hex = trim(text);
            if hex.is_ascii() && is_hex(hex) {
                match identifier_from_hex(hex) {
                    Some(key_id) => Ok(Some(key_id)),
                    None => Err(String::from_str("the key spells no bytes")),
                }
            } else {
                Err(String::from_str("the key spells no bytes"))
            }
        },
        None => Err(String::from_str("the key is no text")),
    }
}

} // verus!
