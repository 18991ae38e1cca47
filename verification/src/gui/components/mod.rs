//! The parts that views are made of.

pub mod guildbar;
pub mod sidebar;
pub mod text_chat;
