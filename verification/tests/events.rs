use cloudflaredns::api::DnsRecord;
use cloudflaredns::ui::events::{
    cycle_record_type, is_flag_on, KeyCode, KeyEvent, UiAction, UiState,
};
use cloudflaredns::ui::state::AppView;

fn press(code: KeyCode) -> KeyEvent {
    KeyEvent { code, release: false }
}

fn rec(id: &str, t: &str, name: &str, content: &str) -> DnsRecord {
    DnsRecord {
        id: Some(id.to_string()),
        record_type: t.to_string(),
        name: name.to_string(),
        content: content.to_string(),
        ttl: Some(300),
        proxied: Some(true),
        comment: None,
    }
}

fn records() -> Vec<DnsRecord> {
    vec![
        rec("r1", "A", "www.example.com", "1.2.3.4"),
        rec("r2", "AAAA", "v6.example.com", "2001:db8::1"),
        rec("r3", "CNAME", "alias.example.com", "www.example.com"),
    ]
}

fn key(ui: &mut UiState, code: KeyCode, recs: &[DnsRecord], ips: &[String]) -> UiAction {
    ui.handle_key(press(code), recs, ips, ".example.com")
}

#[test]
fn starts_on_list_initializing() {
    let ui = UiState::new();
    assert_eq!(ui.view, AppView::List);
    assert_eq!(ui.status, "Initializing...");
    assert_eq!(ui.form.record_type, "A");
    assert_eq!(ui.form.ttl, "1");
    assert_eq!(ui.form.proxied, "false");
}

#[test]
fn quit_only_from_list() {
    let recs = records();
    let mut ui = UiState::new();
    key(&mut ui, KeyCode::Char('c'), &recs, &[]);
    assert_eq!(ui.view, AppView::Create);
    key(&mut ui, KeyCode::Char('q'), &recs, &[]);
    assert!(!ui.should_exit);
    key(&mut ui, KeyCode::Esc, &recs, &[]);
    assert_eq!(ui.view, AppView::List);
    assert_eq!(ui.status, "Cancelled");
    key(&mut ui, KeyCode::Char('Q'), &recs, &[]);
    assert!(ui.should_exit);
}

#[test]
fn release_is_ignored() {
    let recs = records();
    let mut ui = UiState::new();
    let a = ui.handle_key(
        KeyEvent { code: KeyCode::Char('q'), release: true },
        &recs,
        &[],
        ".example.com",
    );
    assert!(matches!(a, UiAction::Nothing));
    assert!(!ui.should_exit);
}

#[test]
fn list_selection_wraps() {
    let recs = records();
    let mut ui = UiState::new();
    key(&mut ui, KeyCode::Up, &recs, &[]);
    assert_eq!(ui.list_sel_idx, 2);
    key(&mut ui, KeyCode::Down, &recs, &[]);
    assert_eq!(ui.list_sel_idx, 0);
    key(&mut ui, KeyCode::Down, &recs, &[]);
    assert_eq!(ui.list_sel_idx, 1);
    let mut empty = UiState::new();
    key(&mut empty, KeyCode::Down, &[], &[]);
    assert_eq!(empty.list_sel_idx, 0);
}

#[test]
fn refresh_starts_reload() {
    let recs = records();
    let mut ui = UiState::new();
    let a = key(&mut ui, KeyCode::Char('r'), &recs, &[]);
    assert!(matches!(a, UiAction::Refresh));
    assert_eq!(ui.status, "Refreshing...");
}

#[test]
fn l_key_lists_again() {
    let recs = records();
    let mut ui = UiState::new();
    key(&mut ui, KeyCode::Down, &recs, &[]);
    let a = key(&mut ui, KeyCode::Char('L'), &recs, &[]);
    assert!(matches!(a, UiAction::Refresh));
    assert_eq!(ui.status, "Refreshing...");
    assert_eq!(ui.view, AppView::List);
    assert_eq!(ui.list_sel_idx, 1);
    let b = key(&mut ui, KeyCode::Char('l'), &recs, &[]);
    assert!(matches!(b, UiAction::Refresh));
    key(&mut ui, KeyCode::Char('c'), &recs, &[]);
    let in_form = key(&mut ui, KeyCode::Char('l'), &recs, &[]);
    assert!(matches!(in_form, UiAction::Nothing));
}

#[test]
fn delete_flow_confirms_once() {
    let recs = records();
    let mut ui = UiState::new();
    key(&mut ui, KeyCode::Down, &recs, &[]);
    key(&mut ui, KeyCode::Char('d'), &recs, &[]);
    assert_eq!(ui.view, AppView::Delete);
    assert_eq!(ui.status, "Enter: confirm | Esc: cancel");
    let a = key(&mut ui, KeyCode::Enter, &recs, &[]);
    match a {
        UiAction::Delete { record_id, record_name, record_type } => {
            assert_eq!(record_id, "r2");
            assert_eq!(record_name, "v6.example.com");
            assert_eq!(record_type, "AAAA");
        }
        _ => panic!("expected a deletion"),
    }
    assert!(ui.is_deleting);
    let again = key(&mut ui, KeyCode::Enter, &recs, &[]);
    assert!(matches!(again, UiAction::Nothing));
    ui.finish_delete(&Ok(()), "v6.example.com", "AAAA");
    assert_eq!(ui.view, AppView::List);
    assert!(!ui.is_deleting);
    assert_eq!(ui.status, "Deleted v6.example.com (AAAA)");
}

#[test]
fn delete_needs_records() {
    let mut ui = UiState::new();
    key(&mut ui, KeyCode::Char('d'), &[], &[]);
    assert_eq!(ui.view, AppView::List);
}

#[test]
fn delete_escape_cancels() {
    let recs = records();
    let mut ui = UiState::new();
    key(&mut ui, KeyCode::Char('D'), &recs, &[]);
    key(&mut ui, KeyCode::Esc, &recs, &[]);
    assert_eq!(ui.view, AppView::List);
    assert_eq!(ui.status, "Cancelled");
}

#[test]
fn edit_fills_form() {
    let recs = records();
    let mut ui = UiState::new();
    key(&mut ui, KeyCode::Char('e'), &recs, &[]);
    assert_eq!(ui.view, AppView::Edit);
    assert_eq!(ui.editing_record_id, "r1");
    assert_eq!(ui.form.name, "www");
    assert_eq!(ui.form.content, "1.2.3.4");
    assert_eq!(ui.form.ttl, "300");
    assert_eq!(ui.form.proxied, "true");
    assert_eq!(ui.status, "Editing www.example.com (A) — Esc to cancel");
}

#[test]
fn form_focus_cycles_six_fields() {
    let recs = records();
    let mut ui = UiState::new();
    key(&mut ui, KeyCode::Char('c'), &recs, &[]);
    key(&mut ui, KeyCode::Up, &recs, &[]);
    assert_eq!(ui.form_focus, 5);
    key(&mut ui, KeyCode::Tab, &recs, &[]);
    assert_eq!(ui.form_focus, 0);
    key(&mut ui, KeyCode::BackTab, &recs, &[]);
    key(&mut ui, KeyCode::Down, &recs, &[]);
    assert_eq!(ui.form_focus, 0);
}

#[test]
fn space_cycles_type_and_toggles_proxy() {
    let recs = records();
    let mut ui = UiState::new();
    key(&mut ui, KeyCode::Char('c'), &recs, &[]);
    key(&mut ui, KeyCode::Char(' '), &recs, &[]);
    assert_eq!(ui.form.record_type, "AAAA");
    for _ in 0..4 {
        key(&mut ui, KeyCode::Tab, &recs, &[]);
    }
    assert_eq!(ui.form_focus, 4);
    key(&mut ui, KeyCode::Char(' '), &recs, &[]);
    assert_eq!(ui.form.proxied, "true");
    key(&mut ui, KeyCode::Char(' '), &recs, &[]);
    assert_eq!(ui.form.proxied, "false");
}

#[test]
fn submit_sends_form_once() {
    let recs = records();
    let mut ui = UiState::new();
    key(&mut ui, KeyCode::Char('c'), &recs, &[]);
    ui.form.name = "api".to_string();
    ui.form.content = "9.9.9.9".to_string();
    ui.form.ttl = "abc".to_string();
    ui.form.proxied = "TRUE".to_string();
    key(&mut ui, KeyCode::BackTab, &recs, &[]);
    let a = key(&mut ui, KeyCode::Enter, &recs, &[]);
    match a {
        UiAction::Submit { record_id, record_type, name, content, ttl, proxied } => {
            assert_eq!(record_id, "");
            assert_eq!(record_type, "A");
            assert_eq!(name, "api");
            assert_eq!(content, "9.9.9.9");
            assert_eq!(ttl, 1);
            assert!(proxied);
        }
        _ => panic!("expected a submission"),
    }
    assert!(ui.is_submitting);
    assert!(matches!(key(&mut ui, KeyCode::Enter, &recs, &[]), UiAction::Nothing));
}

#[test]
fn submit_parses_ttl() {
    let recs = records();
    let mut ui = UiState::new();
    key(&mut ui, KeyCode::Char('c'), &recs, &[]);
    ui.form.ttl = "3600".to_string();
    key(&mut ui, KeyCode::Up, &recs, &[]);
    match key(&mut ui, KeyCode::Enter, &recs, &[]) {
        UiAction::Submit { ttl, proxied, .. } => {
            assert_eq!(ttl, 3600);
            assert!(!proxied);
        }
        _ => panic!("expected a submission"),
    }
}

#[test]
fn ip_selector_picks_address() {
    let recs = records();
    let ips = vec!["1.2.3.4".to_string(), "2001:db8::1".to_string()];
    let mut ui = UiState::new();
    key(&mut ui, KeyCode::Char('c'), &recs, &ips);
    key(&mut ui, KeyCode::Tab, &recs, &ips);
    key(&mut ui, KeyCode::Tab, &recs, &ips);
    key(&mut ui, KeyCode::Char(' '), &recs, &ips);
    assert_eq!(ui.view, AppView::IpSelect);
    assert_eq!(ui.ip_sel_idx, 0);
    key(&mut ui, KeyCode::Up, &recs, &ips);
    assert_eq!(ui.ip_sel_idx, 2);
    key(&mut ui, KeyCode::Down, &recs, &ips);
    key(&mut ui, KeyCode::Down, &recs, &ips);
    assert_eq!(ui.ip_sel_idx, 1);
    key(&mut ui, KeyCode::Enter, &recs, &ips);
    assert_eq!(ui.view, AppView::Create);
    assert_eq!(ui.form.content, "2001:db8::1");
    assert_eq!(ui.form_focus, 2);
    assert_eq!(ui.status, "Selected: 2001:db8::1");
}

#[test]
fn ip_selector_new_address_entry() {
    let recs = records();
    let ips = vec!["1.2.3.4".to_string()];
    let mut ui = UiState::new();
    key(&mut ui, KeyCode::Char('e'), &recs, &ips);
    key(&mut ui, KeyCode::Down, &recs, &ips);
    key(&mut ui, KeyCode::Down, &recs, &ips);
    key(&mut ui, KeyCode::Char(' '), &recs, &ips);
    key(&mut ui, KeyCode::Down, &recs, &ips);
    key(&mut ui, KeyCode::Enter, &recs, &ips);
    assert_eq!(ui.view, AppView::Edit);
    assert_eq!(ui.form.content, "");
    assert_eq!(ui.status, "Type a new IP");
}

#[test]
fn ip_selector_escape_passes_through_form() {
    let recs = records();
    let ips = vec!["1.2.3.4".to_string()];
    let mut ui = UiState::new();
    key(&mut ui, KeyCode::Char('c'), &recs, &ips);
    key(&mut ui, KeyCode::Tab, &recs, &ips);
    key(&mut ui, KeyCode::Tab, &recs, &ips);
    key(&mut ui, KeyCode::Char(' '), &recs, &ips);
    key(&mut ui, KeyCode::Esc, &recs, &ips);
    assert_eq!(ui.view, AppView::List);
    assert_eq!(ui.status, "Cancelled");
}

#[test]
fn flag_text_any_case() {
    assert!(is_flag_on("true"));
    assert!(is_flag_on("TrUe"));
    assert!(!is_flag_on("yes"));
    assert!(!is_flag_on("true "));
}

#[test]
fn record_type_cycle() {
    assert_eq!(cycle_record_type("A"), "AAAA");
    assert_eq!(cycle_record_type("TXT"), "SRV");
    assert_eq!(cycle_record_type("CAA"), "A");
    assert_eq!(cycle_record_type("NS"), "AAAA");
}
