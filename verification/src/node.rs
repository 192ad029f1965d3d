//! What the integrated node computes on its own: the block template that
//! miners work on.

pub mod build_block;
pub mod coinbase;
pub mod fees;
pub mod mine_block;
pub mod outside;
pub mod requests;
pub mod types;
