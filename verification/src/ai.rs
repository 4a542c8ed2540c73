//! The opponent: strategies, the service abstraction and its local and
//! mock implementations.

pub mod local_service;
pub mod mock_service;
pub mod service;
pub mod strategies;
