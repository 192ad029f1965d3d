//! Declarations of the types and functions of other crates that the block
//! builder relies on. The contracts of the functions that call them are not
//! proved: each states what the named function is known to do. What such a
//! function makes of a request is kept, with the request, in a type that
//! nothing else can make.

use vstd::prelude::*;
use crate::node::requests::{BlockParts, BurnRequest};

verus! {

/// `grin_keychain::Identifier`: the path of a derived key.
#[verifier::external_type_specification]
#[verifier::external_body]
pub struct ExIdentifier(grin_keychain::Identifier);

/// `grin_core::core::BlockHeader`.
#[verifier::external_type_specification]
#[verifier::external_body]
pub struct ExBlockHeader(grin_core::core::BlockHeader);

/// `grin_core::core::Block`.
#[verifier::external_type_specification]
#[verifier::external_body]
pub struct ExBlock(grin_core::core::Block);

/// `grin_core::core::Transaction`.
#[verifier::external_type_specification]
#[verifier::external_body]
pub struct ExTransaction(grin_core::core::Transaction);

/// `grin_core::core::Output`.
#[verifier::external_type_specification]
#[verifier::external_body]
pub struct ExOutput(grin_core::core::Output);

/// `grin_core::core::TxKernel`.
#[verifier::external_type_specification]
#[verifier::external_body]
pub struct ExTxKernel(grin_core::core::TxKernel);

/// `grin_core::pow::Difficulty`.
#[verifier::external_type_specification]
#[verifier::external_body]
pub struct ExDifficulty(grin_core::pow::Difficulty);

/// `grin_keychain::ExtKeychain`.
#[verifier::external_type_specification]
#[verifier::external_body]
pub struct ExExtKeychain(grin_keychain::ExtKeychain);

/// `serde_json::Value`.
#[verifier::external_type_specification]
#[verifier::external_body]
pub struct ExValue(serde_json::Value);

/// `grin_chain::Error`.
#[verifier::external_type_specification]
#[verifier::external_body]
pub struct ExChainError(grin_chain::Error);

/// The commitment that a `grin_chain::Error` of the variant
/// `DuplicateCommitment` holds, as `Debug` writes it; nothing for any other
/// variant.
pub uninterp spec fn spec_duplicate_commitment(error: grin_chain::Error) -> Option<Seq<char>>;

/// A `grin_chain::Error` as `Debug` writes it.
pub uninterp spec fn spec_chain_error_text(error: grin_chain::Error) -> Seq<char>;

/// The variant `DuplicateCommitment` of `grin_chain::Error`: the commitment
/// that it holds, rendered as text, or `None` for any other variant.
#[verifier::external_body]
pub(crate) fn duplicate_commitment(error: &grin_chain::Error) -> (commitment: Option<String>)
    ensures
        match commitment {
            Some(text) => spec_duplicate_commitment(*error) == Some(text@),
            None => spec_duplicate_commitment(*error) is None,
        },
{
    match error {
        grin_chain::Error::DuplicateCommitment(commit) => Some(format!("{:?}", commit)),
        _ => None,
    }
}

/// `Debug` of `grin_chain::Error`: the error rendered as text.
#[verifier::external_body]
pub(crate) fn describe_chain_error(error: &grin_chain::Error) -> (text: String)
    ensures
        text@ == spec_chain_error_text(*error),
{
    format!("{:?}", error)
}

/// `chrono::Utc::now` and `chrono::DateTime::timestamp`: the wall clock, in
/// whole seconds since the Unix epoch. Nothing is claimed of the value.
#[verifier::external_body]
pub(crate) fn clock_seconds() -> (now_sec: i64) {
    chrono::Utc::now().timestamp()
}

/// `rand::rng` and `rand::Rng::random`: a fresh random 32-bit value. Nothing
/// is claimed of the value.
#[verifier::external_body]
pub(crate) fn random_nonce() -> (nonce: u32) {
    rand::Rng::random(&mut rand::rng())
}

/// `Clone::clone` of `grin_keychain::Identifier`, which copies the bytes of
/// the identifier.
#[verifier::external_body]
pub(crate) fn clone_identifier(id: &grin_keychain::Identifier) -> (copy: grin_keychain::Identifier)
    ensures
        copy == *id,
{
    id.clone()
}

/// The field `height` of a `grin_core::core::BlockHeader`.
pub uninterp spec fn spec_header_height(header: grin_core::core::BlockHeader) -> u64;

/// The field `timestamp` of a `grin_core::core::BlockHeader`, as
/// `chrono::DateTime::timestamp` gives it: whole seconds since the Unix
/// epoch.
pub uninterp spec fn spec_header_timestamp(header: grin_core::core::BlockHeader) -> i64;

/// The field `pow.total_difficulty` of a `grin_core::core::BlockHeader`, as a
/// number.
pub uninterp spec fn spec_header_total_difficulty(header: grin_core::core::BlockHeader) -> u64;

/// What `grin_core::core::BlockHeader::hash` gives for a header: the bytes
/// of its hash.
pub uninterp spec fn spec_header_hash(header: grin_core::core::BlockHeader) -> Seq<u8>;

/// What `grin_core::pow::Difficulty::to_num` gives: the difficulty as a
/// number.
pub uninterp spec fn spec_difficulty_num(difficulty: grin_core::pow::Difficulty) -> u64;

/// What `grin_core::core::Transaction::fee` gives: the fees that the kernels
/// of the transaction carry, added up.
pub uninterp spec fn spec_transaction_fee(tx: grin_core::core::Transaction) -> u64;

/// The field `header.height` of a `grin_core::core::Block`.
pub uninterp spec fn spec_block_height(block: grin_core::core::Block) -> u64;

/// The field `header.prev_hash` of a `grin_core::core::Block`, as bytes.
pub uninterp spec fn spec_block_prev_hash(block: grin_core::core::Block) -> Seq<u8>;

/// The field `header.pow.nonce` of a `grin_core::core::Block`.
pub uninterp spec fn spec_block_nonce(block: grin_core::core::Block) -> u64;

/// The field `header.pow.secondary_scaling` of a `grin_core::core::Block`.
pub uninterp spec fn spec_block_scaling(block: grin_core::core::Block) -> u32;

/// The field `header.timestamp` of a `grin_core::core::Block`, in whole
/// seconds since the Unix epoch.
pub uninterp spec fn spec_block_timestamp(block: grin_core::core::Block) -> i64;

/// The field `height` of `grin_core::core::BlockHeader`.
#[verifier::external_body]
pub(crate) fn header_height(header: &grin_core::core::BlockHeader) -> (height: u64)
    ensures
        height == spec_header_height(*header),
{
    header.height
}

/// `chrono::DateTime::timestamp` on the field `timestamp` of
/// `grin_core::core::BlockHeader`: the header's time in whole seconds since
/// the Unix epoch.
#[verifier::external_body]
pub(crate) fn header_timestamp(header: &grin_core::core::BlockHeader) -> (seconds: i64)
    ensures
        seconds == spec_header_timestamp(*header),
{
    header.timestamp.timestamp()
}

/// `grin_core::pow::Difficulty::to_num` on the field `pow.total_difficulty`
/// of `grin_core::core::BlockHeader`.
#[verifier::external_body]
pub(crate) fn header_total_difficulty(header: &grin_core::core::BlockHeader) -> (total: u64)
    ensures
        total == spec_header_total_difficulty(*header),
{
    header.pow.total_difficulty.to_num()
}

/// `grin_core::pow::Difficulty::to_num`: the difficulty as a number.
#[verifier::external_body]
pub(crate) fn difficulty_num(difficulty: grin_core::pow::Difficulty) -> (num: u64)
    ensures
        num == spec_difficulty_num(difficulty),
{
    difficulty.to_num()
}

/// `grin_core::core::Transaction::fee`: the fees that the kernels of the
/// transaction carry, added up.
#[verifier::external_body]
pub(crate) fn transaction_fee(tx: &grin_core::core::Transaction) -> (fee: u64)
    ensures
        fee == spec_transaction_fee(*tx),
{
    tx.fee()
}

/// `Clone::clone` of `grin_core::core::Transaction`, which is derived: a copy
/// of the transaction.
#[verifier::external_body]
pub(crate) fn clone_transaction(tx: &grin_core::core::Transaction) -> (copy:
    grin_core::core::Transaction)
    ensures
        copy == *tx,
{
    tx.clone()
}

/// The first second that `chrono` has a date for, counted from the Unix
/// epoch: that of `chrono::DateTime::<Utc>::MIN_UTC`.
pub const MIN_DATE_SECONDS: i64 = -8_334_601_228_800;

/// The last second that `chrono` has a date for, counted from the Unix
/// epoch: that of `chrono::DateTime::<Utc>::MAX_UTC`.
pub const MAX_DATE_SECONDS: i64 = 8_210_266_876_799;

/// Whether `chrono::DateTime::from_timestamp` has a date for this number of
/// seconds since the Unix epoch, with no nanoseconds: it has one from the
/// first to the last second of the dates that `chrono` can hold.
pub open spec fn spec_is_date(seconds: int) -> bool {
    MIN_DATE_SECONDS <= seconds <= MAX_DATE_SECONDS
}

/// The knowledge that the thread or the process has set a chain type, with
/// whether that is the test network. Only [`active_chain`] makes one; the
/// functions of `grin_core` that panic without a chain type ask for it.
pub struct ActiveChain {
    testnet: bool,
}

/// `grin_core::global::CHAIN_TYPE`, `GLOBAL_CHAIN_TYPE.is_init` and, where
/// either holds a chain type, `grin_core::global::is_testnet`: whether the
/// thread runs on the test network. `None` where neither the thread nor the
/// process has set a chain type: the functions of `grin_core` that depend on
/// the chain type panic there.
#[verifier::external_body]
pub(crate) fn active_chain() -> (chain: Option<ActiveChain>) {
    if grin_core::global::CHAIN_TYPE.with(|chain_type| chain_type.get()).is_some()
        || grin_core::global::GLOBAL_CHAIN_TYPE.is_init()
    {
        Some(ActiveChain { testnet: grin_core::global::is_testnet() })
    } else {
        None
    }
}

/// `grin_keychain::ExtKeychain::from_random_seed`: a keychain from a seed
/// that is drawn at random, for the network of `chain`. The error is rendered
/// as text.
#[verifier::external_body]
pub(crate) fn keychain_from_random_seed(chain: &ActiveChain) -> (keychain: Result<
    grin_keychain::ExtKeychain,
    String,
>) {
    match <grin_keychain::ExtKeychain as grin_keychain::Keychain>::from_random_seed(chain.testnet) {
        Ok(keychain) => Ok(keychain),
        Err(e) => Err(format!("{:?}", e)),
    }
}

/// The output and the kernel of a reward, with the request that they were
/// made for. Only [`reward_output`] makes one.
pub struct BurntReward {
    output: grin_core::core::Output,
    kernel: grin_core::core::TxKernel,
    request: BurnRequest,
}

impl BurntReward {
    /// The output of the reward.
    pub closed spec fn spec_output(&self) -> grin_core::core::Output {
        self.output
    }

    /// The kernel of the reward.
    pub closed spec fn spec_kernel(&self) -> grin_core::core::TxKernel {
        self.kernel
    }

    /// The request that the reward was made for.
    pub closed spec fn spec_request(&self) -> BurnRequest {
        self.request
    }

    /// The output and the kernel of the reward.
    pub fn into_coinbase(self) -> (coinbase: (grin_core::core::Output, grin_core::core::TxKernel))
        ensures
            coinbase == (self.spec_output(), self.spec_kernel()),
    {
        (self.output, self.kernel)
    }
}

/// `grin_keychain::ExtKeychain::derive_key_id` and
/// `grin_core::libtx::reward::output`, with a `ProofBuilder` on the same
/// keychain: the output and the kernel of a reward for a block with the fees
/// of `request`, for the key at the path of `request`, kept with the request.
/// The keychain walks the path as deep as the depth says, and the path has
/// four steps. The functions panic without a chain type. The error is
/// rendered as text.
#[verifier::external_body]
pub(crate) fn reward_output(
    _chain: &ActiveChain,
    keychain: &grin_keychain::ExtKeychain,
    request: BurnRequest,
) -> (reward: Result<BurntReward, String>)
    requires
        request.spec_depth() <= 4,
    ensures
        reward matches Ok(made) ==> made.spec_request() == request,
{
    let (d1, d2, d3, d4) = request.path();
    let key_id = <grin_keychain::ExtKeychain as grin_keychain::Keychain>::derive_key_id(
        request.depth(),
        d1,
        d2,
        d3,
        d4,
    );
    let builder = grin_core::libtx::ProofBuilder::new(keychain);
    let (fees, test) = (request.fees(), request.test_mode());
    match grin_core::libtx::reward::output(keychain, &builder, &key_id, fees, test) {
        Ok((output, kernel)) => Ok(BurntReward { output, kernel, request }),
        Err(e) => Err(format!("{:?}", e)),
    }
}

/// A block that `grin_core` has made, with the parts that it was made of.
/// Only [`block_from_reward`] makes one.
pub struct RawBlock {
    block: grin_core::core::Block,
    parts: BlockParts,
}

/// A block that `grin_core` has found valid on top of the head it was made
/// for, with the parts that it was made of. Only [`validate_block`] makes
/// one.
pub struct ValidBlock {
    block: grin_core::core::Block,
    parts: BlockParts,
}

/// A valid block with the time, the scaling and the nonce written into its
/// header, with the parts that it was made of. Only [`stamp_header`] makes
/// one.
pub struct StampedBlock {
    block: grin_core::core::Block,
    parts: BlockParts,
}

impl RawBlock {
    /// The block itself.
    pub closed spec fn spec_block(&self) -> grin_core::core::Block {
        self.block
    }

    /// What the block was made of.
    pub closed spec fn spec_parts(&self) -> BlockParts {
        self.parts
    }
}

impl ValidBlock {
    /// The block itself.
    pub closed spec fn spec_block(&self) -> grin_core::core::Block {
        self.block
    }

    /// What the block was made of.
    pub closed spec fn spec_parts(&self) -> BlockParts {
        self.parts
    }
}

impl StampedBlock {
    /// The block itself.
    pub closed spec fn spec_block(&self) -> grin_core::core::Block {
        self.block
    }

    /// What the block was made of.
    pub closed spec fn spec_parts(&self) -> BlockParts {
        self.parts
    }

    /// The block itself.
    pub fn into_block(self) -> (block: grin_core::core::Block)
        ensures
            block == self.spec_block(),
    {
        self.block
    }
}

/// `grin_core::core::Block::from_reward`: a block of `parts`, kept with them.
/// The function adds one to the height of the head and the difficulty to its
/// total difficulty, and panics where a sum does not fit 64 bits. It reads
/// the clock and checks the transactions, and panics without a chain type.
/// The block that it gives has the height after the head and names the head
/// by its hash; nothing else is claimed of it. The error is rendered as text.
#[verifier::external_body]
pub(crate) fn block_from_reward(_chain: &ActiveChain, parts: BlockParts) -> (block: Result<
    RawBlock,
    String,
>)
    requires
        spec_header_height(parts.spec_head().spec_header()) < u64::MAX,
        spec_difficulty_num(parts.spec_difficulty()) + spec_header_total_difficulty(
            parts.spec_head().spec_header(),
        ) <= u64::MAX,
    ensures
        block matches Ok(raw) ==> raw.spec_parts() == parts,
        block matches Ok(raw) ==> spec_block_height(raw.spec_block()) == spec_header_height(
            parts.spec_head().spec_header(),
        ) + 1,
        block matches Ok(raw) ==> spec_block_prev_hash(raw.spec_block()) == spec_header_hash(
            parts.spec_head().spec_header(),
        ),
{
    let (head, txs) = (parts.head().header(), parts.txs());
    let (output, kernel, difficulty) = (parts.output(), parts.kernel(), parts.difficulty());
    match grin_core::core::Block::from_reward(head, txs, output, kernel, difficulty) {
        Ok(block) => Ok(RawBlock { block, parts }),
        Err(e) => Err(format!("{:?}", e)),
    }
}

/// `grin_core::core::Block::validate`, against the field
/// `total_kernel_offset` of the head that the block was made for: the same
/// block, marked as valid, or the error, rendered as text. The function
/// panics without a chain type.
#[verifier::external_body]
pub(crate) fn validate_block(_chain: &ActiveChain, raw: RawBlock) -> (verdict: Result<
    ValidBlock,
    String,
>)
    ensures
        verdict matches Ok(valid) ==> valid.spec_block() == raw.spec_block(),
        verdict matches Ok(valid) ==> valid.spec_parts() == raw.spec_parts(),
{
    match raw.block.validate(&raw.parts.head().header().total_kernel_offset) {
        Ok(()) => Ok(ValidBlock { block: raw.block, parts: raw.parts }),
        Err(e) => Err(format!("{:?}", e)),
    }
}

/// `chrono::DateTime::from_timestamp`, and the fields `pow.nonce`,
/// `pow.secondary_scaling` and `timestamp` of the header of a block: the
/// block with the three values written, where the time has a date, and
/// nothing where it has none. Nothing else in the header changes, and the
/// time that is written reads back as the same number of seconds.
#[verifier::external_body]
pub(crate) fn stamp_header(
    valid: ValidBlock,
    nonce: u64,
    secondary_scaling: u32,
    timestamp: i64,
) -> (stamped: Option<StampedBlock>)
    ensures
        stamped is Some == spec_is_date(timestamp as int),
        stamped matches Some(s) ==> s.spec_parts() == valid.spec_parts(),
        stamped matches Some(s) ==> spec_block_nonce(s.spec_block()) == nonce,
        stamped matches Some(s) ==> spec_block_scaling(s.spec_block()) == secondary_scaling,
        stamped matches Some(s) ==> spec_block_timestamp(s.spec_block()) == timestamp,
        stamped matches Some(s) ==> spec_block_height(s.spec_block()) == spec_block_height(
            valid.spec_block(),
        ),
        stamped matches Some(s) ==> spec_block_prev_hash(s.spec_block()) == spec_block_prev_hash(
            valid.spec_block(),
        ),
{
    let mut block = valid.block;
    match chrono::DateTime::from_timestamp(timestamp, 0) {
        Some(time) => {
            block.header.pow.nonce = nonce;
            block.header.pow.secondary_scaling = secondary_scaling;
            block.header.timestamp = time;
            Some(StampedBlock { block, parts: valid.parts })
        },
        None => None,
    }
}

/// What a `serde_json::Value` holds: the JSON text that its `Display` writes,
/// which tells one value from every other.
pub uninterp spec fn spec_json_text(value: serde_json::Value) -> Seq<char>;

/// What `serde_json::from_str` makes of a text: the value that the text
/// spells, as the JSON text that it holds, or the error, as text.
pub uninterp spec fn spec_json_parse(text: Seq<char>) -> Result<Seq<char>, Seq<char>>;

/// What indexing by `key` finds in the `serde_json::Value` that holds `json`,
/// as the JSON text that it holds.
pub uninterp spec fn spec_json_member(json: Seq<char>, key: Seq<char>) -> Seq<char>;

/// What `serde_json::Value::as_str` finds in the value that holds `json`: the
/// text that the value is, if it is one.
pub uninterp spec fn spec_json_str(json: Seq<char>) -> Option<Seq<char>>;

/// What `grin_core::libtx::secp_ser::string_or_u64::deserialize` reads in the
/// `serde_json::Value` that holds `json`.
pub uninterp spec fn spec_json_string_or_u64(json: Seq<char>) -> Option<u64>;

/// Whether `grin_util::from_hex` reads bytes from a text.
pub uninterp spec fn spec_is_hex(text: Seq<char>) -> bool;

/// What a `grin_keychain::Identifier` holds: its bytes.
pub uninterp spec fn spec_identifier_bytes(key_id: grin_keychain::Identifier) -> Seq<u8>;

/// The bytes of the identifier that `grin_keychain::Identifier::from_hex`
/// makes of a text.
pub uninterp spec fn spec_identifier_from_hex(hex: Seq<char>) -> Seq<u8>;

/// `serde_json::from_str` for `serde_json::Value`: the JSON value that the
/// text spells, or the error, rendered as text; both depend on the text alone.
#[verifier::external_body]
pub(crate) fn json_parse(text: &str) -> (value: Result<serde_json::Value, String>)
    ensures
        match value {
            Ok(parsed) => spec_json_parse(text@) == Ok::<Seq<char>, Seq<char>>(
                spec_json_text(parsed),
            ),
            Err(error) => spec_json_parse(text@) == Err::<Seq<char>, Seq<char>>(error@),
        },
{
    match serde_json::from_str::<serde_json::Value>(text) {
        Ok(value) => Ok(value),
        Err(e) => Err(e.to_string()),
    }
}

/// Indexing of `serde_json::Value` by a text: the member of that name where
/// the value is an object that has one, and `null` otherwise. What is found
/// depends on the value and the name alone.
#[verifier::external_body]
pub(crate) fn json_member<'a>(value: &'a serde_json::Value, key: &str) -> (member:
    &'a serde_json::Value)
    ensures
        spec_json_text(*member) == spec_json_member(spec_json_text(*value), key@),
{
    &value[key]
}

/// `serde_json::Value::is_null`: whether the value is `null`, which is the
/// one value that is written as `null`.
#[verifier::external_body]
pub(crate) fn json_is_null(value: &serde_json::Value) -> (null: bool)
    ensures
        null == (spec_json_text(*value) == "null"@),
{
    value.is_null()
}

/// `Display` of `serde_json::Value`: the value written as JSON text.
#[verifier::external_body]
pub(crate) fn json_text(value: &serde_json::Value) -> (text: String)
    ensures
        text@ == spec_json_text(*value),
{
    value.to_string()
}

/// `serde_json::Value::as_str`: the text that the value is, if it is one.
#[verifier::external_body]
pub(crate) fn json_as_str<'a>(value: &'a serde_json::Value) -> (text: Option<&'a str>)
    ensures
        match text {
            Some(t) => spec_json_str(spec_json_text(*value)) == Some(t@),
            None => spec_json_str(spec_json_text(*value)) is None,
        },
{
    value.as_str()
}

/// `grin_core::libtx::secp_ser::string_or_u64::deserialize` on a JSON value:
/// the number that the value holds, as a number or as a text of digits. What
/// is read depends on the value alone.
#[verifier::external_body]
pub(crate) fn json_string_or_u64(value: &serde_json::Value) -> (number: Option<u64>)
    ensures
        number == spec_json_string_or_u64(spec_json_text(*value)),
{
    grin_core::libtx::secp_ser::string_or_u64::deserialize(value).ok()
}

/// `grin_util::from_hex`: whether the text spells bytes in hexadecimal
/// digits. The function cuts the text into pieces of two bytes, which it can
/// do without a panic where every character is one byte.
#[verifier::external_body]
pub(crate) fn is_hex(text: &str) -> (hex: bool)
    requires
        text.is_ascii(),
    ensures
        hex == spec_is_hex(text@),
{
    grin_util::from_hex(text).is_ok()
}

/// `grin_keychain::Identifier::from_hex`: the identifier that hexadecimal
/// digits spell. The function panics on a text from which
/// `grin_util::from_hex` reads no bytes, and gives an identifier for every
/// other, whose bytes depend on the text alone.
#[verifier::external_body]
pub(crate) fn identifier_from_hex(hex: &str) -> (key_id: Option<grin_keychain::Identifier>)
    requires
        hex.is_ascii(),
        spec_is_hex(hex@),
    ensures
        key_id is Some,
        key_id matches Some(k) ==> spec_identifier_bytes(k) == spec_identifier_from_hex(hex@),
{
    grin_keychain::Identifier::from_hex(hex).ok()
}

} // verus!
