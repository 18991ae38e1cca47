//! The client's side of the remote service.

pub mod cdn_client;
pub mod gateway;
