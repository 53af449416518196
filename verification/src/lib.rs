//! Cloudflare DNS manager: the verified core.
//!
//! The record model, the record cache, the text that the terminal interface
//! shows, the key handling of the interface and the interpretation of the
//! Cloudflare API's answers live here, each with its contract.
pub mod utils;
pub mod api;
pub mod ui;
pub mod config;
