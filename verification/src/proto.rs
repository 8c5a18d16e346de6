//! The wire vocabulary of the server.

pub mod client;
pub mod engine;
