//! A room: its state, and what every command does to it.

pub mod actions;
pub mod basics;
pub mod broadcast;
pub mod claims;
pub mod commands;
pub mod conservation;
pub mod convert;
pub mod deals;
pub mod driver;
pub mod engine_view;
pub mod flow;
pub mod frames;
pub mod hand;
pub mod handlers;
pub mod load_rules;
pub mod load_test;
pub mod match_flow;
pub mod news;
pub mod notices;
pub mod numbering;
pub mod offers;
pub mod orders;
pub mod outcomes;
pub mod payloads;
pub mod payoff;
pub mod plays;
pub mod questions;
pub mod records;
pub mod requests;
pub mod rounds;
pub mod rules;
pub mod seating;
pub mod settlement;
pub mod simulation;
pub mod soundness;
pub mod state;
pub mod steps;
pub mod stock;
pub mod success;
pub mod table;
pub mod tidy;
pub mod traces;
pub mod turns;
pub mod views;
pub mod windows;
pub mod writing;
