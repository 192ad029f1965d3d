//! The views of the integrated node and of the connections to other nodes.

pub mod container;
pub mod modals;
pub mod node;
pub mod setup;
pub mod types;
