//! A verified engine for the game of reversi, together with the session
//! registry and opponent orchestration that serve it.

pub mod ai;
pub mod api;
pub mod battle;
pub mod config;
pub mod error;
pub mod game;
pub mod numerals;
pub mod platform;
pub mod session;
