//! Collectors: each turns one kind of node notification into events.

pub mod block;
pub mod log;
