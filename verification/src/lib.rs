//! Normalises notifications from a blockchain node into a uniform sequence
//! of domain events.

pub mod bindings;
pub mod collectors;
pub mod config;
pub mod errors;
pub mod types;
