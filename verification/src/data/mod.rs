//! The data that a session holds: users, relationships, channels and settings.

pub mod cache;
pub mod settings;
pub mod state;
pub mod text;
pub mod user;
