//! The state behind the views of the interface.

pub mod input;
pub mod modal;
pub mod network;
pub mod types;
pub mod wallets;
