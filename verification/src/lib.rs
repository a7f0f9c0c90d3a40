//! Compares two live JSON event streams and reports where they agree,
//! diverge, or fall out of sync.
//!
//! The heart of the crate is the alignment engine: it folds the events of
//! two sides into bounded per-side buffers, derives a comparable key from
//! each event, and decides — continuously or per round — when and how the
//! two sides are compared.  Everything here is verified; the asynchronous
//! transports and terminal entry points sit outside the library and drive
//! it one event at a time.

pub mod console;
pub mod cross;
pub mod differ;
pub mod engine;
pub mod extract;
pub mod json;
pub mod report;
pub mod state;
pub mod stream;
pub mod tracker;
pub mod visual;
pub mod websocket;
