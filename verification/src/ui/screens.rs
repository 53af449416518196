//! The texts of the interface's screens: titles, hints, the record list, the
//! delete dialog and the status line.
use vstd::prelude::*;
use crate::api::models::DnsRecord;
use crate::ui::events::UiState;
use crate::ui::state::AppView;
use crate::ui::status::{
    contextual_status, generate_contextual_status, render_text, transient_text, StatusMessage,
};
use crate::utils::formatting::{shown_proxied, shown_ttl, yes_no};
use crate::utils::text::{decimal, int_decimal, padded, push_decimal, push_int, push_padded, str_equal};

verus! {

/// The window title: the cloud, the application's name and the zone's name.
pub open spec fn window_title(zone_name: Seq<char>) -> Seq<char> {
    " ☁ Cloudflare DNS — "@ + zone_name + " "@
}

/// The window title for a zone.
pub fn window_title_text(zone_name: &str) -> (t: String)
    ensures
        t@ == window_title(zone_name@),
{
    let mut t = String::from_str(" ☁ Cloudflare DNS — ");
    t.append(zone_name);
    t.append(" ");
    t
}

/// The form's heading: whether a record is edited or created.
pub open spec fn form_heading(is_editing: bool) -> Seq<char> {
    if is_editing {
        "Edit DNS Record"@
    } else {
        "Create DNS Record"@
    }
}

/// The form's heading.
pub fn form_heading_text(is_editing: bool) -> (t: &'static str)
    ensures
        t@ == form_heading(is_editing),
{
    if is_editing {
        "Edit DNS Record"
    } else {
        "Create DNS Record"
    }
}

/// The form window's title: the heading and the zone's name.
pub fn form_title_text(is_editing: bool, zone_name: &str) -> (t: String)
    ensures
        t@ == " "@ + form_heading(is_editing) + " — "@ + zone_name@ + " "@,
{
    let mut t = String::from_str(" ");
    t.append(form_heading_text(is_editing));
    t.append(" — ");
    t.append(zone_name);
    t.append(" ");
    t
}

/// The form's key hint.
pub fn form_hint_text(is_editing: bool) -> (t: &'static str)
    ensures
        t@ == if is_editing {
            "Tab: navigate | Space on IP: selector | Enter: save | Esc: cancel"@
        } else {
            "Tab: navigate | Space on IP: selector | Enter: submit | Esc: cancel"@
        },
{
    if is_editing {
        "Tab: navigate | Space on IP: selector | Enter: save | Esc: cancel"
    } else {
        "Tab: navigate | Space on IP: selector | Enter: submit | Esc: cancel"
    }
}

/// The label of the form's submit field.
pub fn submit_label_text(is_editing: bool) -> (t: &'static str)
    ensures
        t@ == if is_editing {
            "Save"@
        } else {
            "Submit"@
        },
{
    if is_editing {
        "Save"
    } else {
        "Submit"
    }
}

/// The selected record as the delete dialog names it: `{name} ({type})`, or
/// "Unknown" when the selection is past the list.
pub open spec fn record_label(records: Seq<DnsRecord>, idx: int) -> Seq<char> {
    if 0 <= idx < records.len() {
        records[idx].name@ + " ("@ + records[idx].record_type@ + ")"@
    } else {
        "Unknown"@
    }
}

/// The selected record as the delete dialog names it.
pub fn selected_record_label(records: &[DnsRecord], idx: usize) -> (t: String)
    ensures
        t@ == record_label(records@, idx as int),
{
    if idx < records.len() {
        let mut t = records[idx].name.clone();
        t.append(" (");
        t.append(records[idx].record_type.as_str());
        t.append(")");
        t
    } else {
        String::from_str("Unknown")
    }
}

/// The delete dialog's line naming the record.
pub fn delete_record_line(label: &str) -> (t: String)
    ensures
        t@ == "Record: "@ + label@,
{
    let mut t = String::from_str("Record: ");
    t.append(label);
    t
}

/// The delete dialog's prompt: progress while deleting, the keys otherwise.
pub fn delete_prompt_text(deleting: bool) -> (t: &'static str)
    ensures
        t@ == if deleting {
            "  Deleting..."@
        } else {
            "  Enter: confirm | Esc: cancel"@
        },
{
    if deleting {
        "  Deleting..."
    } else {
        "  Enter: confirm | Esc: cancel"
    }
}

/// One row of the record list, marked when selected.
pub open spec fn list_row(r: DnsRecord, marked: bool) -> Seq<char> {
    (if marked {
        "▸ "@
    } else {
        "  "@
    }) + padded(r.record_type@, 6) + " │ "@ + padded(r.name@, 30) + " │ "@ + padded(r.content@, 20)
        + " │ TTL: "@ + padded(int_decimal(shown_ttl(r)), 6) + " │ Proxy: "@ + yes_no(
        shown_proxied(r),
    ) + "\n"@
}

/// The rows of the record list, the one at `sel` marked.
pub open spec fn list_rows(rs: Seq<DnsRecord>, sel: int) -> Seq<char>
    decreases rs.len(),
{
    if rs.len() == 0 {
        Seq::empty()
    } else {
        list_rows(rs.drop_last(), sel) + list_row(rs.last(), rs.len() - 1 == sel)
    }
}

/// The record list screen's text.
pub open spec fn record_list(rs: Seq<DnsRecord>, sel: int) -> Seq<char> {
    if rs.len() == 0 {
        "No DNS records found\n\n↑↓: navigate | [D]elete | [C]reate"@
    } else {
        decimal(rs.len()) + " DNS Records  (↑↓: navigate, D: delete, R: refresh)\n\n"@ + list_rows(
            rs,
            sel,
        )
    }
}

/// Appends one row of the record list.
fn push_list_row(out: &mut String, r: &DnsRecord, marked: bool)
    ensures
        final(out)@ == old(out)@ + list_row(*r, marked),
{
    let ghost start = out@;
    if marked {
        out.append("▸ ");
    } else {
        out.append("  ");
    }
    push_padded(out, r.record_type.as_str(), 6);
    out.append(" │ ");
    push_padded(out, r.name.as_str(), 30);
    out.append(" │ ");
    push_padded(out, r.content.as_str(), 20);
    out.append(" │ TTL: ");
    let ttl: i64 = match r.ttl {
        Some(t) => t,
        None => 0,
    };
    let mut t = String::new();
    push_int(&mut t, ttl);
    assert(t@ =~= int_decimal(ttl as int));
    push_padded(out, t.as_str(), 6);
    out.append(" │ Proxy: ");
    let proxied = match r.proxied {
        Some(p) => p,
        None => false,
    };
    if proxied {
        out.append("Yes");
    } else {
        out.append("No");
    }
    out.append("\n");
    assert(out@ =~= start + list_row(*r, marked));
}

/// The record list screen's text, with the selected record marked.
pub fn record_list_text(records: &[DnsRecord], selected: usize) -> (t: String)
    ensures
        t@ == record_list(records@, selected as int),
{
    if records.len() == 0 {
        return String::from_str("No DNS records found\n\n↑↓: navigate | [D]elete | [C]reate");
    }
    let mut t = String::new();
    push_decimal(&mut t, records.len() as u64);
    t.append(" DNS Records  (↑↓: navigate, D: delete, R: refresh)\n\n");
    let ghost head = t@;
    let mut i: usize = 0;
    while i < records.len()
        invariant
            i <= records@.len(),
            t@ == head + list_rows(records@.take(i as int), selected as int),
        decreases records@.len() - i,
    {
        push_list_row(&mut t, &records[i], i == selected);
        proof {
            assert(records@.take(i + 1).drop_last() =~= records@.take(i as int));
            assert(records@.take(i + 1).last() == records@[i as int]);
        }
        i = i + 1;
    }
    assert(records@.take(records@.len() as int) =~= records@);
    t
}

/// The status line: a transient status as it is, else the help for the
/// current view, field or selected record.
pub open spec fn status_line(ui: UiState, records: Seq<DnsRecord>) -> Seq<char> {
    if transient_text(ui.status@) {
        ui.status@
    } else {
        render_text(
            contextual_status(
                ui.view,
                ui.form_focus as int,
                ui.form.record_type@,
                ui.form.proxied@,
                ui.view == AppView::Edit,
                records.len() as int,
                ui.list_sel_idx as int,
                if ui.list_sel_idx < records.len() {
                    Some(records[ui.list_sel_idx as int].name@)
                } else {
                    None
                },
            ),
        )
    }
}

/// The status line for the interface's state.
pub fn status_line_text(ui: &UiState, records: &[DnsRecord]) -> (t: String)
    requires
        ui.wf(),
    ensures
        t@ == status_line(*ui, records@),
{
    if StatusMessage::is_transient(ui.status.as_str()) {
        return ui.status.clone();
    }
    let lsi = ui.list_sel_idx;
    let name: Option<&str> = if lsi < records.len() {
        Some(records[lsi].name.as_str())
    } else {
        None
    };
    let m = generate_contextual_status(
        &ui.view,
        ui.form_focus as usize,
        ui.form.record_type.as_str(),
        ui.form.proxied.as_str(),
        ui.view == AppView::Edit,
        records.len(),
        lsi,
        name,
    );
    m.render()
}

/// How long the status line waits before it looks at the status again: three
/// seconds for a transient status, half a second otherwise.
pub fn status_hold_millis(status: &str) -> (ms: u64)
    ensures
        ms == if status@.len() > 0 && transient_text(status@) {
            3000u64
        } else {
            500u64
        },
{
    if status.unicode_len() > 0 && StatusMessage::is_transient(status) {
        3000
    } else {
        500
    }
}

/// Whether a transient status, held for its time, is cleared: only when it
/// was not replaced meanwhile.
pub fn clears_after_hold(observed: &str, current: &str) -> (r: bool)
    ensures
        r == (observed@.len() > 0 && transient_text(observed@) && current@ == observed@),
{
    observed.unicode_len() > 0 && StatusMessage::is_transient(observed) && str_equal(current, observed)
}

} // verus!
