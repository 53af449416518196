//! The Cloudflare API v4: record model, record cache, error values, and the
//! decisions taken on each answer of the API.
pub mod cache;
pub mod client;
pub mod error;
pub mod models;

pub use cache::DnsCache;
pub use error::CloudflareError;
pub use models::DnsRecord;
