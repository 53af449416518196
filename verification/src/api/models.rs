//! Data models for Cloudflare DNS records and API responses.
use vstd::prelude::*;

verus! {

/// A DNS record in Cloudflare's system.
///
/// `id` is absent on a record that has not been created yet.
#[derive(Debug, Clone)]
pub struct DnsRecord {
    /// The unique identifier for the record (not present when creating new records)
    pub id: Option<String>,
    /// The DNS record type (A, AAAA, CNAME, MX, TXT, etc.)
    pub record_type: String,
    /// The DNS record name (e.g., "example.com" or "www.example.com")
    pub name: String,
    /// The record content (IP address, hostname, etc.)
    pub content: String,
    /// Time-to-live in seconds (`1` means automatic)
    pub ttl: Option<i64>,
    /// Whether the record is proxied through Cloudflare (orange cloud)
    pub proxied: Option<bool>,
    /// Optional comment for the record
    pub comment: Option<String>,
}

/// A copy of an optional string.
pub fn copy_opt_string(s: &Option<String>) -> (r: Option<String>)
    ensures
        r == *s,
{
    match s {
        Some(v) => Some(v.clone()),
        None => None,
    }
}

impl DnsRecord {
    /// A field-by-field copy of the record.
    pub fn duplicate(&self) -> (r: DnsRecord)
        ensures
            r == *self,
    {
        DnsRecord {
            id: copy_opt_string(&self.id),
            record_type: self.record_type.clone(),
            name: self.name.clone(),
            content: self.content.clone(),
            ttl: self.ttl,
            proxied: self.proxied,
            comment: copy_opt_string(&self.comment),
        }
    }
}

/// A copy of a list of records.
pub fn copy_records(records: &[DnsRecord]) -> (r: Vec<DnsRecord>)
    ensures
        r@ == records@,
{
    let mut out: Vec<DnsRecord> = Vec::new();
    let mut i: usize = 0;
    while i < records.len()
        invariant
            i <= records@.len(),
            out@ == records@.subrange(0, i as int),
        decreases records@.len() - i,
    {
        out.push(records[i].duplicate());
        i = i + 1;
        assert(out@ =~= records@.subrange(0, i as int));
    }
    assert(records@.subrange(0, records@.len() as int) =~= records@);
    out
}

/// A copy of a list of strings.
pub fn copy_strings(items: &[String]) -> (r: Vec<String>)
    ensures
        r@ == items@,
{
    let mut out: Vec<String> = Vec::new();
    let mut i: usize = 0;
    while i < items.len()
        invariant
            i <= items@.len(),
            out@ == items@.subrange(0, i as int),
        decreases items@.len() - i,
    {
        out.push(items[i].clone());
        i = i + 1;
        assert(out@ =~= items@.subrange(0, i as int));
    }
    assert(items@.subrange(0, items@.len() as int) =~= items@);
    out
}

/// The generic envelope of every Cloudflare API answer.
#[derive(Debug, Clone)]
pub struct ApiResponse<T> {
    /// Whether the request was successful
    pub success: bool,
    /// Error details if the request failed
    pub errors: Vec<ApiError>,
    /// Informational messages
    pub messages: Vec<String>,
    /// The response data
    pub result: Option<T>,
}

/// One error reported by the Cloudflare API.
#[derive(Debug, Clone)]
pub struct ApiError {
    /// Error code
    pub code: i64,
    /// Error message
    pub message: String,
}

/// A DNS record as the Cloudflare API returns it (always with an ID).
#[derive(Debug, Clone)]
pub struct DnsRecordResponse {
    pub id: String,
    pub record_type: String,
    pub name: String,
    pub content: String,
    pub ttl: i64,
    pub proxied: bool,
    pub comment: Option<String>,
}

/// Zone information from Cloudflare.
#[derive(Debug, Clone)]
pub struct ZoneResponse {
    pub id: String,
    pub name: String,
}

/// The record that a returned record stands for: every field carried over,
/// the id, TTL and proxy flag marked present.
pub open spec fn spec_record_from_response(r: DnsRecordResponse) -> DnsRecord {
    DnsRecord {
        id: Some(r.id),
        record_type: r.record_type,
        name: r.name,
        content: r.content,
        ttl: Some(r.ttl),
        proxied: Some(r.proxied),
        comment: r.comment,
    }
}

impl DnsRecordResponse {
    /// The application's record for a record returned by the API.
    pub fn to_record(&self) -> (r: DnsRecord)
        ensures
            r == spec_record_from_response(*self),
    {
        DnsRecord {
            id: Some(self.id.clone()),
            record_type: self.record_type.clone(),
            name: self.name.clone(),
            content: self.content.clone(),
            ttl: Some(self.ttl),
            proxied: Some(self.proxied),
            comment: copy_opt_string(&self.comment),
        }
    }

    /// Converts a record returned by the API into the application's record.
    pub fn into_record(self) -> (r: DnsRecord)
        ensures
            r == spec_record_from_response(self),
    {
        DnsRecord {
            id: Some(self.id),
            record_type: self.record_type,
            name: self.name,
            content: self.content,
            ttl: Some(self.ttl),
            proxied: Some(self.proxied),
            comment: self.comment,
        }
    }
}

} // verus!
