//! The concurrent session registry and its trusted store bindings.

pub mod ai_battle_manager;
pub mod store;
