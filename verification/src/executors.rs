//! Executors: sinks that perform one externally visible action per call.

pub mod mempool_executor;
