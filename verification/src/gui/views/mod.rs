//! The views of the application.

pub mod direct_messages;
pub mod private_channels;
pub mod settings;
