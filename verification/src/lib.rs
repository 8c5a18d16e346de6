//! A server for Guobiao mahjong.
//!
//! A room is a state machine that takes one command after the other: it deals, lets players draw,
//! discard and claim, and settles hands and matches. What it wants done outside, frames to send,
//! events to store and timeouts to wait for, it puts into its outbox; what only a rule engine can
//! tell, it asks for. Around the rooms are the lobby, the sessions of users, the gateways, the
//! stored matches with their replays, and a load test in which rooms play by themselves.

pub mod auth;
pub mod collections;
pub mod db;
pub mod engine;
pub mod gateway;
pub mod http;
pub mod json;
pub mod load_test;
pub mod lobby;
pub mod proto;
pub mod rng;
pub mod room;
pub mod text;
pub mod tiles;
pub mod tokens;
