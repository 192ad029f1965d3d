//! The settings of the integrated node.

pub mod node;
pub mod pool;
