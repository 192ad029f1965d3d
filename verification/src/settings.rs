//! The settings of the application.

pub mod config;
pub mod outside;
