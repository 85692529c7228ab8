//! The decision logic of a single native window that is driven by host
//! callbacks: which native handles the host receives at setup, and how each
//! windowing event is answered.

pub mod handle;
pub mod bridge;
pub mod icon;
pub mod config;
