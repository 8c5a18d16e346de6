//! What is stored, and how it is read back.

pub mod digest;
pub mod models;
pub mod promises;
pub mod queries;
pub mod replay;
pub mod rooms;
