//! Block templates for mining, the settings of the application, and the
//! state of the windows that the interface shows on top of its content.

pub mod gui;
pub mod node;
pub mod settings;
pub mod wallet;
