//! An in-memory, cache-only backend for a contract-execution state:
//! five bounded least-recently-used caches behind a height-gated
//! reader/writer interface.

pub mod cache_model;
pub mod class;
pub mod felt;
pub mod laws;
pub mod lru;
pub mod registry;
pub mod state;
