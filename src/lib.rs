//! Per-identifier admission control over fixed refill windows.
pub mod bucket;
pub mod store;
pub mod engine;
pub mod config;
pub mod server;
