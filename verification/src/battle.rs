//! The battle layer: sessions against the computer opponent, their value
//! shapes, the orchestrating service and its fallback policy.

pub mod config_service;
pub mod dto;
pub mod service;
