//! Collectors: sources of a live, order-preserving sequence of events
//! derived from a node subscription.

pub mod block_collector;
pub mod log_collector;

pub mod mempool_collector;
