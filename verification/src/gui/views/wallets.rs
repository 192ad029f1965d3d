//! The views of the wallets.

pub mod setup;
pub mod wallet;
