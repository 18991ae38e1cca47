//! Gateway protocol client: frame codec, session state and lifecycle decisions.

pub mod api;
pub mod data;
pub mod gui;
pub mod json;
