//! Authenticated client for a versioned REST API: request signing,
//! request preparation and response classification, with verified contracts.

pub mod signing;
pub mod error;
pub mod client;
pub mod config;
pub mod laws;
