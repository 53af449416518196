use cloudflaredns::api::DnsRecord;
use cloudflaredns::utils::{extract_unique_ips, strip_domain_suffix};

fn rec(t: &str, content: &str) -> DnsRecord {
    DnsRecord {
        id: None,
        record_type: t.to_string(),
        name: "n.example.com".to_string(),
        content: content.to_string(),
        ttl: Some(1),
        proxied: Some(false),
        comment: None,
    }
}

#[test]
fn unique_ips_ignore_order_and_repeats() {
    let a = vec![rec("A", "9.9.9.9"), rec("AAAA", "::1"), rec("A", "1.1.1.1")];
    let b = vec![
        rec("A", "1.1.1.1"),
        rec("MX", "mail"),
        rec("A", "9.9.9.9"),
        rec("AAAA", "::1"),
        rec("A", "1.1.1.1"),
    ];
    let ia = extract_unique_ips(&a);
    assert_eq!(ia, extract_unique_ips(&b));
    assert_eq!(ia, vec!["1.1.1.1", "9.9.9.9", "::1"]);
    for w in ia.windows(2) {
        assert!(w[0] < w[1]);
    }
}

#[test]
fn strip_then_append_gives_name_back() {
    let name = "db.internal.example.com";
    let suffix = ".example.com";
    let stripped = strip_domain_suffix(name, suffix);
    assert_eq!(format!("{}{}", stripped, suffix), name);
    assert_eq!(strip_domain_suffix("other.org", suffix), "other.org");
}
