//! Text building blocks and the record formatting helpers.
pub mod format_laws;
pub mod formatting;
pub mod text;

pub use formatting::{extract_unique_ips, format_records, format_selector, strip_domain_suffix};
