//! Decision core of an event-ingestion and action-dispatch layer for a
//! ledger node.
//!
//! Collectors turn what a node subscription delivers into typed events;
//! the mempool executor prices a transaction request and has it submitted.
//! Every call to the node is made by the caller: the functions here take
//! what the node answered and say what is to happen next.

pub mod collectors;
pub mod executors;
pub mod types;
