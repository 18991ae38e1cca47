//! What the user interface decides: which view is shown and what an event of a
//! view means to the application. Drawing is not done here.

pub mod app;
pub mod components;
pub mod message;
pub mod theme;
pub mod views;
