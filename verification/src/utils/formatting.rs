//! Formatting utilities for DNS records and the interface's texts.
use vstd::prelude::*;
use crate::api::models::DnsRecord;
use crate::utils::text::{
    decimal, has_suffix, int_decimal, lemma_lex_irreflexive, lemma_lex_total,
    lemma_lex_transitive, lex_lt, padded, push_decimal, push_int, push_padded, str_ends_with,
    str_equal, str_less,
};

verus! {

/// `name` without `suffix` where it ends with it, else `name` itself.
pub open spec fn spec_strip_suffix(name: Seq<char>, suffix: Seq<char>) -> Seq<char> {
    if has_suffix(name, suffix) {
        name.subrange(0, name.len() - suffix.len())
    } else {
        name
    }
}

/// Strips the domain suffix from a DNS record name.
/// E.g., "pihole.robrett.com" with suffix ".robrett.com" gives "pihole".
pub fn strip_domain_suffix(name: &str, domain_suffix: &str) -> (r: String)
    ensures
        r@ == spec_strip_suffix(name@, domain_suffix@),
{
    if str_ends_with(name, domain_suffix) {
        let n = name.unicode_len();
        let k = domain_suffix.unicode_len();
        String::from_str(name.substring_char(0, n - k))
    } else {
        String::from_str(name)
    }
}


/// The views of a list of strings.
pub open spec fn views(v: Seq<String>) -> Seq<Seq<char>> {
    v.map_values(|s: String| s@)
}

/// Every text comes before the texts after it: sorted, without repetition.
pub open spec fn strictly_sorted(v: Seq<Seq<char>>) -> bool {
    forall|i: int, j: int| 0 <= i < j < v.len() ==> lex_lt(#[trigger] v[i], #[trigger] v[j])
}

/// An A or AAAA record, whose content is an address.
pub open spec fn is_address_record(r: DnsRecord) -> bool {
    r.record_type@ == "A"@ || r.record_type@ == "AAAA"@
}

/// `s` is the content of one of the A or AAAA records.
pub open spec fn is_listed_address(records: Seq<DnsRecord>, s: Seq<char>) -> bool {
    exists|i: int| 0 <= i < records.len() && is_address_record(#[trigger] records[i]) && records[i].content@ == s
}

/// Extracts the addresses of the A and AAAA records: each once, in the order of `str`.
pub fn extract_unique_ips(records: &[DnsRecord]) -> (ips: Vec<String>)
    ensures
        strictly_sorted(views(ips@)),
        forall|s: Seq<char>| views(ips@).contains(s) <==> is_listed_address(records@, s),
{
    let mut out: Vec<String> = Vec::new();
    let mut i: usize = 0;
    while i < records.len()
        invariant
            i <= records@.len(),
            strictly_sorted(views(out@)),
            forall|s: Seq<char>|
                views(out@).contains(s) <==> is_listed_address(records@.take(i as int), s),
        decreases records@.len() - i,
    {
        let r = &records[i];
        let ghost before = records@.take(i as int);
        let ghost after = records@.take(i + 1);
        assert(after =~= before.push(*r));
        let is_addr = str_equal(r.record_type.as_str(), "A") || str_equal(
            r.record_type.as_str(),
            "AAAA",
        );
        if is_addr {
            let x = r.content.as_str();
            let mut j: usize = 0;
            while j < out.len() && str_less(out[j].as_str(), x)
                invariant
                    j <= out@.len(),
                    forall|k: int| 0 <= k < j ==> lex_lt(#[trigger] out@[k]@, x@),
                decreases out@.len() - j,
            {
                j = j + 1;
            }
            let present = j < out.len() && str_equal(out[j].as_str(), x);
            if !present {
                let ghost old_v = views(out@);
                out.insert(j, r.content.clone());
                proof {
                    assert(views(out@) =~= old_v.insert(j as int, x@));
                    if j < old_v.len() {
                        lemma_lex_total(old_v[j as int], x@);
                    }
                    assert forall|a: int, b: int| 0 <= a < b < views(out@).len() implies lex_lt(
                        #[trigger] views(out@)[a],
                        #[trigger] views(out@)[b],
                    ) by {
                        let v = views(out@);
                        if b < j {
                        } else if b == j {
                            assert(v[a] == old_v[a]);
                        } else if a == j {
                            assert(v[b] == old_v[b - 1]);
                            if b - 1 > j {
                                lemma_lex_transitive(x@, old_v[j as int], old_v[b - 1]);
                            }
                        } else if a < j {
                            assert(v[a] == old_v[a]);
                            assert(v[b] == old_v[b - 1]);
                        } else {
                            assert(v[a] == old_v[a - 1]);
                            assert(v[b] == old_v[b - 1]);
                        }
                    }
                    assert forall|s: Seq<char>| views(out@).contains(s) <==> is_listed_address(
                        after,
                        s,
                    ) by {
                        if views(out@).contains(s) {
                            let k = choose|k: int| 0 <= k < views(out@).len() && views(out@)[k] == s;
                            if k == j {
                                assert(after[i as int] == *r);
                            } else if k < j {
                                assert(old_v[k] == s);
                                assert(old_v.contains(s));
                                let w = choose|w: int| 0 <= w < before.len() && is_address_record(#[trigger] before[w]) && before[w].content@ == s;
                                assert(after[w] == before[w]);
                            } else {
                                assert(old_v[k - 1] == s);
                                assert(old_v.contains(s));
                                let w = choose|w: int| 0 <= w < before.len() && is_address_record(#[trigger] before[w]) && before[w].content@ == s;
                                assert(after[w] == before[w]);
                            }
                        }
                        if is_listed_address(after, s) {
                            let w = choose|w: int| 0 <= w < after.len() && is_address_record(#[trigger] after[w]) && after[w].content@ == s;
                            if w < i {
                                assert(before[w] == after[w]);
                                assert(is_listed_address(before, s));
                                assert(old_v.contains(s));
                                let k = choose|k: int| 0 <= k < old_v.len() && old_v[k] == s;
                                if k < j {
                                    assert(views(out@)[k] == s);
                                } else {
                                    assert(views(out@)[k + 1] == s);
                                }
                            } else {
                                assert(views(out@)[j as int] == s);
                            }
                        }
                    }
                }
            } else {
                proof {
                    let v = views(out@);
                    assert(v[j as int] == x@);
                    assert forall|s: Seq<char>| v.contains(s) <==> is_listed_address(after, s) by {
                        if v.contains(s) {
                            let w = choose|w: int| 0 <= w < before.len() && is_address_record(#[trigger] before[w]) && before[w].content@ == s;
                            assert(after[w] == before[w]);
                        }
                        if is_listed_address(after, s) {
                            let w = choose|w: int| 0 <= w < after.len() && is_address_record(#[trigger] after[w]) && after[w].content@ == s;
                            if w < i {
                                assert(before[w] == after[w]);
                                assert(is_listed_address(before, s));
                            } else {
                                assert(v.contains(x@));
                            }
                        }
                    }
                }
            }
        } else {
            proof {
                assert forall|s: Seq<char>| views(out@).contains(s) <==> is_listed_address(after, s) by {
                    if views(out@).contains(s) {
                        let w = choose|w: int| 0 <= w < before.len() && is_address_record(#[trigger] before[w]) && before[w].content@ == s;
                        assert(after[w] == before[w]);
                    }
                    if is_listed_address(after, s) {
                        let w = choose|w: int| 0 <= w < after.len() && is_address_record(#[trigger] after[w]) && after[w].content@ == s;
                        if w < i {
                            assert(before[w] == after[w]);
                            assert(is_listed_address(before, s));
                        } else {
                            assert(after[w] == *r);
                        }
                    }
                }
            }
        }
        i = i + 1;
    }
    assert(records@.take(records@.len() as int) =~= records@);
    out
}


/// The TTL that a table shows: the record's, or 0 when it has none.
pub open spec fn shown_ttl(r: DnsRecord) -> int {
    match r.ttl {
        Some(t) => t as int,
        None => 0,
    }
}

/// Whether a table shows the record as proxied: only when it says so.
pub open spec fn shown_proxied(r: DnsRecord) -> bool {
    match r.proxied {
        Some(p) => p,
        None => false,
    }
}

/// The proxy column of a table row.
pub open spec fn yes_no(b: bool) -> Seq<char> {
    if b {
        "Yes"@
    } else {
        "No"@
    }
}

/// One row of the record table.
pub open spec fn record_line(r: DnsRecord) -> Seq<char> {
    padded(r.record_type@, 6) + " | "@ + padded(r.name@, 30) + " | "@ + padded(r.content@, 20)
        + " | TTL: "@ + padded(int_decimal(shown_ttl(r)), 6) + " | Proxy: "@ + yes_no(
        shown_proxied(r),
    ) + "\n"@
}

/// The rows of the record table, one per record, in order.
pub open spec fn record_lines(rs: Seq<DnsRecord>) -> Seq<char>
    decreases rs.len(),
{
    if rs.len() == 0 {
        Seq::empty()
    } else {
        record_lines(rs.drop_last()) + record_line(rs.last())
    }
}

/// The record table: a count header and one row per record, or a notice when
/// there is no record.
pub open spec fn records_table(rs: Seq<DnsRecord>) -> Seq<char> {
    if rs.len() == 0 {
        "No DNS records found"@
    } else {
        decimal(rs.len()) + " DNS Records\n\n"@ + record_lines(rs)
    }
}

/// Appends one row of the record table.
fn push_record_line(out: &mut String, r: &DnsRecord)
    ensures
        final(out)@ == old(out)@ + record_line(*r),
{
    let ghost start = out@;
    push_padded(out, r.record_type.as_str(), 6);
    out.append(" | ");
    push_padded(out, r.name.as_str(), 30);
    out.append(" | ");
    push_padded(out, r.content.as_str(), 20);
    out.append(" | TTL: ");
    let ttl: i64 = match r.ttl {
        Some(t) => t,
        None => 0,
    };
    let mut t = String::new();
    push_int(&mut t, ttl);
    assert(t@ =~= int_decimal(ttl as int));
    push_padded(out, t.as_str(), 6);
    out.append(" | Proxy: ");
    let proxied = match r.proxied {
        Some(p) => p,
        None => false,
    };
    if proxied {
        out.append("Yes");
    } else {
        out.append("No");
    }
    out.append("\n");
    assert(out@ =~= start + record_line(*r));
}

/// Formats DNS records as a table for display.
pub fn format_records(records: &[DnsRecord]) -> (t: String)
    ensures
        t@ == records_table(records@),
{
    if records.len() == 0 {
        return String::from_str("No DNS records found");
    }
    let mut t = String::new();
    push_decimal(&mut t, records.len() as u64);
    t.append(" DNS Records\n\n");
    let ghost head = t@;
    let mut i: usize = 0;
    while i < records.len()
        invariant
            i <= records@.len(),
            t@ == head + record_lines(records@.take(i as int)),
        decreases records@.len() - i,
    {
        push_record_line(&mut t, &records[i]);
        proof {
            assert(records@.take(i + 1).drop_last() =~= records@.take(i as int));
            assert(records@.take(i + 1).last() == records@[i as int]);
        }
        i = i + 1;
    }
    assert(records@.take(records@.len() as int) =~= records@);
    t
}

/// One line of the address selector.
pub open spec fn selector_line(ip: Seq<char>, selected: bool) -> Seq<char> {
    if selected {
        "  ▸ "@ + ip + " ◂\n"@
    } else {
        "    "@ + ip + "\n"@
    }
}

/// The address lines of the selector, the one at `sel` marked.
pub open spec fn selector_lines(ips: Seq<String>, sel: int) -> Seq<char>
    decreases ips.len(),
{
    if ips.len() == 0 {
        Seq::empty()
    } else {
        selector_lines(ips.drop_last(), sel) + selector_line(ips.last()@, ips.len() - 1 == sel)
    }
}

/// The address selector: one line per address, then the line for a new
/// address; the line at `sel` is marked.
pub open spec fn selector_text(ips: Seq<String>, sel: int) -> Seq<char> {
    selector_lines(ips, sel) + if ips.len() == sel {
        "  ▸ ✎ Enter new IP address... ◂\n"@
    } else {
        "    ✎ Enter new IP address...\n"@
    }
}

/// Formats the addresses for the selector, marking the selected line.
pub fn format_selector(ips: &[String], selected_idx: usize) -> (s: String)
    ensures
        s@ == selector_text(ips@, selected_idx as int),
{
    let mut s = String::new();
    let mut i: usize = 0;
    while i < ips.len()
        invariant
            i <= ips@.len(),
            s@ == selector_lines(ips@.take(i as int), selected_idx as int),
        decreases ips@.len() - i,
    {
        let ghost before = s@;
        if i == selected_idx {
            s.append("  ▸ ");
            s.append(ips[i].as_str());
            s.append(" ◂\n");
        } else {
            s.append("    ");
            s.append(ips[i].as_str());
            s.append("\n");
        }
        proof {
            assert(ips@.take(i + 1).drop_last() =~= ips@.take(i as int));
            assert(ips@.take(i + 1).last() == ips@[i as int]);
            assert(s@ =~= before + selector_line(ips@[i as int]@, i == selected_idx));
        }
        i = i + 1;
    }
    assert(ips@.take(ips@.len() as int) =~= ips@);
    if ips.len() == selected_idx {
        s.append("  ▸ ✎ Enter new IP address... ◂\n");
    } else {
        s.append("    ✎ Enter new IP address...\n");
    }
    s
}

} // verus!
