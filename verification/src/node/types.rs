//! The values that the block builder exchanges with the chain, the
//! transaction pool and the wallet.

use vstd::prelude::*;
use grin_core::pow::Difficulty;
use crate::node::outside::{
    describe_chain_error, duplicate_commitment, header_height, header_timestamp,
    spec_chain_error_text, spec_duplicate_commitment, spec_header_height, spec_header_timestamp,
};

verus! {

/// Why the chain refused a request.
pub enum ChainError {
    /// The commitment of the coinbase output is already on the chain. The
    /// text identifies the commitment.
    DuplicateCommitment(String),
    /// Any other failure of the chain, described in words.
    Other(String),
}

/// Why one attempt to build a block came to nothing.
pub enum BuildError {
    /// The chain refused a request.
    Chain(ChainError),
    /// The request to the wallet could not be made.
    Api(String),
    /// The wallet could not be reached, answered with an error, or answered
    /// with something that is no coinbase.
    WalletComm(String),
    /// The block could not be assembled from its parts, or is not valid.
    Core(String),
    /// The keychain for a burnt reward could not be made.
    Keychain(String),
    /// The output or the kernel of a burnt reward could not be made.
    LibTx(String),
    /// The attempt could not go on for a reason of its own: the process has
    /// set no chain type, the time of the block has no date, or the attempt
    /// was told what it did not wait for.
    General(String),
}

/// A failure of the chain, with its text as a sequence of characters.
pub enum ChainErrorView {
    DuplicateCommitment(Seq<char>),
    Other(Seq<char>),
}

/// A failure of an attempt, with its text as a sequence of characters.
pub enum BuildErrorView {
    Chain(ChainErrorView),
    Api(Seq<char>),
    WalletComm(Seq<char>),
    Core(Seq<char>),
    Keychain(Seq<char>),
    LibTx(Seq<char>),
    General(Seq<char>),
}

impl View for ChainError {
    type V = ChainErrorView;

    open spec fn view(&self) -> ChainErrorView {
        match *self {
            ChainError::DuplicateCommitment(info) => ChainErrorView::DuplicateCommitment(info@),
            ChainError::Other(text) => ChainErrorView::Other(text@),
        }
    }
}

impl View for BuildError {
    type V = BuildErrorView;

    open spec fn view(&self) -> BuildErrorView {
        match *self {
            BuildError::Chain(error) => BuildErrorView::Chain(error@),
            BuildError::Api(text) => BuildErrorView::Api(text@),
            BuildError::WalletComm(text) => BuildErrorView::WalletComm(text@),
            BuildError::Core(text) => BuildErrorView::Core(text@),
            BuildError::Keychain(text) => BuildErrorView::Keychain(text@),
            BuildError::LibTx(text) => BuildErrorView::LibTx(text@),
            BuildError::General(text) => BuildErrorView::General(text@),
        }
    }
}

impl ChainError {
    /// The failure that an error of the chain stands for, where `commitment`
    /// is the commitment of a duplicate, if the error reports one, and
    /// `description` describes the error.
    pub open spec fn spec_classify(commitment: Option<String>, description: String) -> ChainError {
        match commitment {
            Some(info) => ChainError::DuplicateCommitment(info),
            None => ChainError::Other(description),
        }
    }

    /// The failure that an error of the chain stands for.
    pub fn classify(commitment: Option<String>, description: String) -> (failure: ChainError)
        ensures
            failure == Self::spec_classify(commitment, description),
    {
        match commitment {
            Some(info) => ChainError::DuplicateCommitment(info),
            None => ChainError::Other(description),
        }
    }

    /// The failure that `error` stands for, with its text as a sequence of
    /// characters: a duplicate commitment with the commitment in words, or
    /// any other failure with the error in words.
    pub open spec fn spec_from_chain(error: grin_chain::Error) -> ChainErrorView {
        match spec_duplicate_commitment(error) {
            Some(info) => ChainErrorView::DuplicateCommitment(info),
            None => ChainErrorView::Other(spec_chain_error_text(error)),
        }
    }

    /// The failure that `error` stands for: a duplicate commitment with the
    /// commitment in words, or any other failure with the error in words.
    pub fn from_chain(error: grin_chain::Error) -> (failure: ChainError)
        ensures
            failure@ == Self::spec_from_chain(error),
    {
        let commitment = duplicate_commitment(&error);
        let description = describe_chain_error(&error);
        ChainError::classify(commitment, description)
    }
}

impl BuildError {
    /// The error is the chain's report of a duplicate commitment.
    pub open spec fn is_duplicate_commitment(self) -> bool {
        self matches BuildError::Chain(ChainError::DuplicateCommitment(_))
    }

    /// The error is a failure to talk to the wallet.
    pub open spec fn is_wallet_comm(self) -> bool {
        self is WalletComm
    }
}

/// The header at the head of the chain, with the two numbers that the
/// builder reads from it.
///
/// The height and the time are always below the largest value of their
/// types, so that the block after this one has a height and a time.
pub struct ChainHead {
    header: grin_core::core::BlockHeader,
    height: u64,
    timestamp: i64,
}

impl ChainHead {
    #[verifier::type_invariant]
    spec fn inv(&self) -> bool {
        &&& self.height < u64::MAX
        &&& self.timestamp < i64::MAX
        &&& self.height == spec_header_height(self.header)
        &&& self.timestamp == spec_header_timestamp(self.header)
    }

    /// The height and the time are those of the header.
    pub open spec fn is_true_to_header(&self) -> bool {
        &&& self.spec_height() == spec_header_height(self.spec_header())
        &&& self.spec_timestamp() == spec_header_timestamp(self.spec_header())
    }

    /// The header itself.
    pub closed spec fn spec_header(&self) -> grin_core::core::BlockHeader {
        self.header
    }

    /// The height of the header.
    pub closed spec fn spec_height(&self) -> u64 {
        self.height
    }

    /// The time of the header, in seconds since the Unix epoch.
    pub closed spec fn spec_timestamp(&self) -> i64 {
        self.timestamp
    }

    /// A block can follow this header: its height and time exist.
    pub open spec fn has_successor(&self) -> bool {
        self.spec_height() < u64::MAX && self.spec_timestamp() < i64::MAX
    }

    /// `head` is what is made of `header` where its height reads `height` and
    /// its time reads `timestamp`: a head with these, or nothing where either
    /// is the largest value of its type, so that no block can follow.
    pub open spec fn is_read(
        head: Option<ChainHead>,
        header: grin_core::core::BlockHeader,
        height: u64,
        timestamp: i64,
    ) -> bool {
        if height < u64::MAX && timestamp < i64::MAX {
            &&& head matches Some(h)
            &&& h.spec_header() == header
            &&& h.spec_height() == height
            &&& h.spec_timestamp() == timestamp
        } else {
            head is None
        }
    }

    /// The head for a header whose height and time were read.
    fn from_parts(header: grin_core::core::BlockHeader, height: u64, timestamp: i64) -> (head:
        Option<ChainHead>)
        requires
            height == spec_header_height(header),
            timestamp == spec_header_timestamp(header),
        ensures
            Self::is_read(head, header, height, timestamp),
    {
        if height < u64::MAX && timestamp < i64::MAX {
            Some(ChainHead { header, height, timestamp })
        } else {
            None
        }
    }

    /// Reads the height and the time of `header`, and keeps them with it.
    /// `None` when either is the largest value of its type, so that no block
    /// can follow.
    pub fn new(header: grin_core::core::BlockHeader) -> (head: Option<ChainHead>)
        ensures
            Self::is_read(
                head,
                header,
                spec_header_height(header),
                spec_header_timestamp(header),
            ),
    {
        let height = header_height(&header);
        let timestamp = header_timestamp(&header);
        ChainHead::from_parts(header, height, timestamp)
    }

    /// A block can follow this head, as it can every head.
    pub(crate) fn can_be_followed(&self)
        ensures
            self.has_successor(),
            self.is_true_to_header(),
    {
        proof {
            use_type_invariant(self);
        }
    }

    /// The header itself.
    pub fn header(&self) -> (header: &grin_core::core::BlockHeader)
        ensures
            *header == self.spec_header(),
    {
        &self.header
    }

    /// The height of the header.
    #[verifier::when_used_as_spec(spec_height)]
    pub fn height(&self) -> (height: u64)
        ensures
            height == self.spec_height(),
            height < u64::MAX,
    {
        proof {
            use_type_invariant(self);
        }
        self.height
    }

    /// The time of the header, in seconds since the Unix epoch.
    #[verifier::when_used_as_spec(spec_timestamp)]
    pub fn timestamp(&self) -> (timestamp: i64)
        ensures
            timestamp == self.spec_timestamp(),
            timestamp < i64::MAX,
    {
        proof {
            use_type_invariant(self);
        }
        self.timestamp
    }
}

/// The difficulty that the next block must meet.
pub struct NextDifficulty {
    /// The difficulty of the block.
    pub difficulty: Difficulty,
    /// The scaling factor of the secondary proof of work.
    pub secondary_scaling: u32,
}

/// What the builder writes into the header of a block once it is valid.
pub struct HeaderStamp {
    /// The starting point of the search for a proof of work.
    pub nonce: u64,
    /// The scaling factor of the secondary proof of work.
    pub secondary_scaling: u32,
    /// The time of the block, in seconds since the Unix epoch.
    pub timestamp: i64,
}

} // verus!
