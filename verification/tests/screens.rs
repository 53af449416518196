use cloudflaredns::api::{CloudflareError, DnsRecord};
use cloudflaredns::ui::data::AppData;
use cloudflaredns::ui::events::UiState;
use cloudflaredns::ui::screens::{
    clears_after_hold, delete_prompt_text, delete_record_line, form_heading_text,
    form_hint_text, form_title_text, record_list_text, selected_record_label, status_hold_millis,
    status_line_text, submit_label_text, window_title_text,
};
use cloudflaredns::ui::state::AppView;
use cloudflaredns::ui::tasks::{
    fill_form_from_record, load_error_text, loaded_status_text, SubmitRequest,
};

fn rec(id: Option<&str>, t: &str, name: &str, content: &str, ttl: Option<i64>) -> DnsRecord {
    DnsRecord {
        id: id.map(|s| s.to_string()),
        record_type: t.to_string(),
        name: name.to_string(),
        content: content.to_string(),
        ttl,
        proxied: None,
        comment: None,
    }
}

#[test]
fn titles_and_labels() {
    assert_eq!(window_title_text("example.com"), " ☁ Cloudflare DNS — example.com ");
    assert_eq!(form_heading_text(true), "Edit DNS Record");
    assert_eq!(form_title_text(false, "example.com"), " Create DNS Record — example.com ");
    assert_eq!(submit_label_text(true), "Save");
    assert_eq!(submit_label_text(false), "Submit");
    assert_eq!(
        form_hint_text(false),
        "Tab: navigate | Space on IP: selector | Enter: submit | Esc: cancel"
    );
    assert_eq!(delete_prompt_text(true), "  Deleting...");
    assert_eq!(delete_prompt_text(false), "  Enter: confirm | Esc: cancel");
}

#[test]
fn record_label_or_unknown() {
    let recs = vec![rec(Some("1"), "MX", "example.com", "mail", Some(1))];
    assert_eq!(selected_record_label(&recs, 0), "example.com (MX)");
    assert_eq!(selected_record_label(&recs, 1), "Unknown");
    assert_eq!(delete_record_line("example.com (MX)"), "Record: example.com (MX)");
}

#[test]
fn record_list_rows() {
    assert_eq!(record_list_text(&[], 0), "No DNS records found\n\n↑↓: navigate | [D]elete | [C]reate");
    let recs = vec![
        rec(Some("1"), "A", "a.example.com", "1.1.1.1", Some(300)),
        rec(Some("2"), "TXT", "t.example.com", "hi", None),
    ];
    let t = record_list_text(&recs, 1);
    let lines: Vec<&str> = t.lines().collect();
    assert_eq!(lines[0], "2 DNS Records  (↑↓: navigate, D: delete, R: refresh)");
    assert_eq!(
        lines[2],
        "  A      │ a.example.com                  │ 1.1.1.1              │ TTL: 300    │ Proxy: No"
    );
    assert!(lines[3].starts_with("▸ TXT    │ t.example.com"));
    assert!(lines[3].contains("TTL: 0      │"));
}

#[test]
fn status_line_prefers_transient_text() {
    let recs = vec![rec(Some("1"), "A", "a.example.com", "1.1.1.1", Some(300))];
    let mut ui = UiState::new();
    assert_eq!(status_line_text(&ui, &recs), "1 of 1 — a.example.com | E: edit | D: delete | R: refresh | C: create | Q: quit");
    ui.status = "Deleted a (A)".to_string();
    assert_eq!(status_line_text(&ui, &recs), "Deleted a (A)");
    ui.status = "Loaded 1 DNS records".to_string();
    assert!(status_line_text(&ui, &recs).starts_with("1 of 1"));
    ui.view = AppView::Edit;
    ui.form_focus = 5;
    assert_eq!(status_line_text(&ui, &recs), "Field 6/6 — Press Enter to Save record");
}

#[test]
fn hold_and_clear() {
    assert_eq!(status_hold_millis("Error: x"), 3000);
    assert_eq!(status_hold_millis("Loaded 3 DNS records"), 500);
    assert_eq!(status_hold_millis(""), 500);
    assert!(clears_after_hold("Created A for www", "Created A for www"));
    assert!(!clears_after_hold("Created A for www", "Cancelled"));
    assert!(!clears_after_hold("Editing x", "Editing x"));
}

#[test]
fn fill_form_strips_zone() {
    let r = rec(Some("id7"), "CNAME", "blog.example.com", "host.example.net", None);
    let (form, id) = fill_form_from_record(&r, ".example.com");
    assert_eq!(id, "id7");
    assert_eq!(form.record_type, "CNAME");
    assert_eq!(form.name, "blog");
    assert_eq!(form.ttl, "1");
    assert_eq!(form.proxied, "false");
    let (_, none) = fill_form_from_record(&rec(None, "A", "x", "y", Some(-5)), ".z");
    assert_eq!(none, "");
}

#[test]
fn task_texts() {
    assert_eq!(loaded_status_text(5, false), "Loaded 5 DNS records");
    assert_eq!(loaded_status_text(12, true), "Loaded 12 DNS records (cached)");
    assert_eq!(load_error_text(&CloudflareError::NoResult), "Error: No result returned from API");
}

#[test]
fn submit_request_record() {
    let create = SubmitRequest {
        record_id: String::new(),
        record_type: "A".to_string(),
        name: "www".to_string(),
        content: "1.2.3.4".to_string(),
        ttl: 1,
        proxied: true,
    };
    assert!(!create.is_update());
    let r = create.to_record();
    assert_eq!(r.id, None);
    assert_eq!(r.ttl, Some(1));
    assert_eq!(r.proxied, Some(true));
    let update = SubmitRequest { record_id: "abc".to_string(), ..create };
    assert!(update.is_update());
    assert_eq!(update.to_record().id, Some("abc".to_string()));
}

#[test]
fn finish_submit_reports() {
    let mut ui = UiState::new();
    ui.view = AppView::Create;
    ui.is_submitting = true;
    ui.form.name = "www".to_string();
    ui.form.content = "1.1.1.1".to_string();
    let req = SubmitRequest {
        record_id: String::new(),
        record_type: "A".to_string(),
        name: "www".to_string(),
        content: "1.1.1.1".to_string(),
        ttl: 1,
        proxied: false,
    };
    ui.finish_submit(&Err(CloudflareError::MissingRecordId), &req);
    assert_eq!(ui.status, "Failed: Cannot update record: no ID provided");
    assert_eq!(ui.view, AppView::Create);
    assert!(!ui.is_submitting);
    let stored = req.to_record();
    ui.finish_submit(&Ok(stored), &req);
    assert_eq!(ui.status, "Created A for www");
    assert_eq!(ui.view, AppView::List);
    assert_eq!(ui.form.name, "");
    assert_eq!(ui.form.content, "");
    ui.status = String::new();
    ui.note_submit_refresh_failed(&req);
    assert_eq!(ui.status, "Created A for www, but refresh failed — press R to reload");
    ui.status = "Cancelled".to_string();
    ui.note_delete_refresh_failed("www.example.com", "A");
    assert_eq!(
        ui.status,
        "Deleted www.example.com (A), but refresh failed — press R to reload"
    );
    let update = SubmitRequest { record_id: "r9".to_string(), ..req };
    ui.note_submit_refresh_failed(&update);
    assert_eq!(ui.status, "Updated A for www, but refresh failed — press R to reload");
}

#[test]
fn finish_delete_failure_keeps_view() {
    let mut ui = UiState::new();
    ui.view = AppView::Delete;
    ui.is_deleting = true;
    ui.finish_delete(&Err(CloudflareError::RequestError("down".to_string())), "a", "A");
    assert_eq!(ui.view, AppView::Delete);
    assert!(!ui.is_deleting);
    assert_eq!(ui.status, "Failed: Failed to send request: down");
}

#[test]
fn app_data_keeps_addresses_with_records() {
    let mut data = AppData::new("zone-id".to_string());
    assert_eq!(data.zone_name(), "zone-id");
    assert_eq!(data.domain_suffix(), ".zone-id");
    data.set_zone_name(Err(CloudflareError::NoResult));
    assert_eq!(data.zone_name(), "zone-id");
    data.set_zone_name(Ok("example.com".to_string()));
    assert_eq!(data.domain_suffix(), ".example.com");
    assert!(data.cached_records().is_none());
    let recs = vec![
        rec(Some("1"), "A", "b.example.com", "9.9.9.9", Some(1)),
        rec(Some("2"), "A", "a.example.com", "1.1.1.1", Some(1)),
        rec(Some("3"), "AAAA", "c.example.com", "9.9.9.9", Some(1)),
    ];
    data.store_records(recs, true);
    assert_eq!(data.records().len(), 3);
    assert_eq!(data.existing_ips(), &vec!["1.1.1.1".to_string(), "9.9.9.9".to_string()]);
    assert_eq!(data.cached_records().unwrap().len(), 3);
    data.invalidate_cache();
    assert!(data.cached_records().is_none());
    assert_eq!(data.records().len(), 3);
    data.store_records(vec![], false);
    assert!(data.existing_ips().is_empty());
    assert!(data.cached_records().is_none());
}
