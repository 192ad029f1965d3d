//! What the interface keeps track of, apart from drawing it.

pub mod outside;
pub mod views;
