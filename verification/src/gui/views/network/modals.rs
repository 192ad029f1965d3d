//! The modal windows of the network panel.

pub mod ext_conn;
