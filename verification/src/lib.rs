//! A parallel private-key search engine.
//!
//! The library splits an inclusive keyspace into contiguous chunks, drives
//! one worker per chunk (exhaustively or by probabilistic sampling), derives
//! the address of each candidate scalar through standard cryptographic
//! primitives, and coordinates shared termination state.

pub mod coordinator;
pub mod crypto;
pub mod dedup;
pub mod encode;
pub mod hex;
pub mod range;
pub mod reporter;
pub mod sampler;
pub mod state;
pub mod worker;

pub use coordinator::run_search;
pub use coordinator::SearchOutcome;
pub use range::Chunk;
pub use range::KeyRange;
pub use state::SearchState;
pub use worker::WorkerOutcome;
