use cloudflaredns::api::client::{
    deletion_from, record_from, update_record_id, zone_name_from, ApiEndpoint, HttpOutcome,
    PageStep, RecordPager,
};
use cloudflaredns::api::models::{ApiError, ApiResponse, DnsRecordResponse, ZoneResponse};
use cloudflaredns::api::DnsRecord;

fn endpoint(token: &str) -> ApiEndpoint {
    ApiEndpoint::with_base_url(
        token.to_string(),
        "zone123".to_string(),
        "http://127.0.0.1:1234".to_string(),
    )
}

fn ok<T>(result: Option<T>) -> HttpOutcome<T> {
    HttpOutcome::Answer(ApiResponse { success: true, errors: vec![], messages: vec![], result })
}

fn listing(outcome: HttpOutcome<Vec<DnsRecordResponse>>) -> Result<Vec<DnsRecord>, String> {
    let mut pager = RecordPager::new();
    match pager.on_page(outcome) {
        PageStep::Done(v) => Ok(v),
        PageStep::Fail(e) => Err(e.to_string()),
        PageStep::Fetch(_) => Err("more pages".to_string()),
    }
}

#[test]
fn test_list_dns_records_success() {
    let e = endpoint("test_token");
    assert_eq!(
        e.records_page_url(1),
        "http://127.0.0.1:1234/zones/zone123/dns_records?page=1&per_page=100"
    );
    assert_eq!(e.authorization(), "Bearer test_token");
    let records = listing(ok(Some(vec![DnsRecordResponse {
        id: "rec1".to_string(),
        record_type: "A".to_string(),
        name: "example.com".to_string(),
        content: "192.168.1.1".to_string(),
        ttl: 300,
        proxied: false,
        comment: None,
    }])))
    .unwrap();
    assert_eq!(records.len(), 1);
    assert_eq!(records[0].id, Some("rec1".to_string()));
    assert_eq!(records[0].record_type, "A");
    assert_eq!(records[0].name, "example.com");
    assert_eq!(records[0].content, "192.168.1.1");
}

#[test]
fn test_list_dns_records_empty() {
    let records = listing(ok(Some(vec![]))).unwrap();
    assert!(records.is_empty());
}

#[test]
fn test_list_dns_records_api_error() {
    let result = listing(HttpOutcome::Answer(ApiResponse {
        success: false,
        errors: vec![ApiError { code: 1000, message: "Invalid API token".to_string() }],
        messages: vec![],
        result: None,
    }));
    assert!(result.is_err());
    let err = result.unwrap_err();
    assert!(err.contains("Invalid API token"));
}

#[test]
fn test_list_dns_records_http_error() {
    let result = listing(HttpOutcome::Status { status: 501, body: "Server error".to_string() });
    assert!(result.is_err());
    let err = result.unwrap_err();
    assert!(err.contains("501"));
}

#[test]
fn test_create_dns_record_success() {
    let e = endpoint("test_token");
    assert_eq!(e.records_url(), "http://127.0.0.1:1234/zones/zone123/dns_records");
    let new_record = DnsRecord {
        id: None,
        record_type: "A".to_string(),
        name: "new.example.com".to_string(),
        content: "10.0.0.1".to_string(),
        ttl: Some(300),
        proxied: Some(true),
        comment: None,
    };
    assert_eq!(new_record.id, None);
    let result = record_from(ok(Some(DnsRecordResponse {
        id: "new_rec".to_string(),
        record_type: "A".to_string(),
        name: "new.example.com".to_string(),
        content: "10.0.0.1".to_string(),
        ttl: 300,
        proxied: true,
        comment: None,
    })))
    .unwrap();
    assert_eq!(result.id, Some("new_rec".to_string()));
    assert_eq!(result.record_type, "A");
    assert_eq!(result.name, "new.example.com");
    assert_eq!(result.content, "10.0.0.1");
    assert_eq!(result.ttl, Some(300));
    assert_eq!(result.proxied, Some(true));
}

#[test]
fn test_delete_dns_record_success() {
    let e = endpoint("test_token");
    assert_eq!(e.record_url("rec123"), "http://127.0.0.1:1234/zones/zone123/dns_records/rec123");
    let result = deletion_from::<()>(ok(None));
    assert!(result.is_ok());
}

#[test]
fn test_update_dns_record_success() {
    let record = DnsRecord {
        id: Some("rec123".to_string()),
        record_type: "A".to_string(),
        name: "updated.example.com".to_string(),
        content: "10.0.0.2".to_string(),
        ttl: Some(600),
        proxied: Some(false),
        comment: None,
    };
    let id = update_record_id(&record).unwrap();
    assert_eq!(
        endpoint("test_token").record_url(&id),
        "http://127.0.0.1:1234/zones/zone123/dns_records/rec123"
    );
    let result = record_from(ok(Some(DnsRecordResponse {
        id: "rec123".to_string(),
        record_type: "A".to_string(),
        name: "updated.example.com".to_string(),
        content: "10.0.0.2".to_string(),
        ttl: 600,
        proxied: false,
        comment: None,
    })))
    .unwrap();
    assert_eq!(result.id, Some("rec123".to_string()));
    assert_eq!(result.name, "updated.example.com");
    assert_eq!(result.content, "10.0.0.2");
    assert_eq!(result.ttl, Some(600));
}

#[test]
fn test_get_zone_name_success() {
    assert_eq!(endpoint("test_token").zone_url(), "http://127.0.0.1:1234/zones/zone123");
    let zone_name = zone_name_from(
        ok(Some(ZoneResponse { id: "zone123".to_string(), name: "example.com".to_string() })),
        "zone123",
    )
    .unwrap();
    assert_eq!(zone_name, "example.com");
}

#[test]
fn test_get_zone_name_fallback_to_id() {
    let zone_name =
        zone_name_from(HttpOutcome::Status { status: 404, body: "Not found".to_string() }, "zone123")
            .unwrap();
    assert_eq!(zone_name, "zone123");
}

#[test]
fn test_update_dns_record_missing_id() {
    let record = DnsRecord {
        id: None,
        record_type: "A".to_string(),
        name: "example.com".to_string(),
        content: "10.0.0.1".to_string(),
        ttl: Some(300),
        proxied: Some(false),
        comment: None,
    };
    let result = update_record_id(&record);
    assert!(result.is_err());
    let err = result.unwrap_err();
    assert!(err.to_string().contains("no ID provided"));
}

#[test]
fn get_zone_name_fallback_when_request_fails() {
    let zone_name =
        zone_name_from(HttpOutcome::Failed("connection refused".to_string()), "zone123").unwrap();
    assert_eq!(zone_name, "zone123");
}
