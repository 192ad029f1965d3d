//! The settings of a wallet.

pub mod recovery;
