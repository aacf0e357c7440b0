//! Hot-reload coordination engine for a live development server.
//!
//! The crate watches for settled file-change batches, keeps an incremental
//! index of the UI templates each source file defines, decides between a
//! cheap in-place patch and a full rebuild, serializes rebuild executions,
//! and fans notifications out to connected client sessions through a
//! bounded, lossy broadcast hub.

pub mod builds;
pub mod debounce;
pub mod engine;
pub mod gateway;
pub mod hub;
pub mod template;
